//! Choosing a release and deciding which of its assets to download.

use crate::errors::GhrError;
use crate::errors::Result;
use crate::filters::all_match;
use crate::filters::apply_filters;
use crate::filters::FilterSpec;
use crate::filters::FilterType;
use crate::models::AssetView;
use crate::models::Release;
use crate::text::join_path;
use crate::text::joined_path;
use crate::text::from_chars;
use crate::text::same_text;
use crate::text::split;
use crate::text::split_chars;
use crate::text::to_chars;
use vstd::prelude::*;
use vstd::string::StringExecFns;

verus! {

/// Why no release is chosen.
pub enum SelectFault {
    /// The newest release was asked for and there is none.
    NoReleases,
    /// No release has the tag that was asked for.
    NotFound,
}

/// `i` is the position of the first release tagged `tag`.
pub open spec fn is_first_tagged(tags: Seq<Seq<char>>, tag: Seq<char>, i: int) -> bool {
    &&& 0 <= i < tags.len()
    &&& tags[i] == tag
    &&& forall|j: int| 0 <= j < i ==> tags[j] != tag
}

/// Which release a selector chooses from the tags of a list, given in the
/// order of the API: `latest` chooses the first of the list, which the API
/// puts newest first; any other selector is a tag and chooses the first
/// release that has exactly it.
pub open spec fn selected(tags: Seq<Seq<char>>, selector: Seq<char>) -> std::result::Result<
    int,
    SelectFault,
> {
    if selector == "latest"@ {
        if tags.len() == 0 {
            Err(SelectFault::NoReleases)
        } else {
            Ok(0int)
        }
    } else if tags.contains(selector) {
        Ok(choose|i: int| is_first_tagged(tags, selector, i))
    } else {
        Err(SelectFault::NotFound)
    }
}

/// The tags of a list of releases.
pub open spec fn tags_of(releases: Seq<Release>) -> Seq<Seq<char>> {
    releases.map_values(|r: Release| r.tag_name@)
}

/// A position that is the first with the tag is the one that `selected`
/// gives.
proof fn lemma_selected(tags: Seq<Seq<char>>, selector: Seq<char>, i: int)
    requires
        selector != "latest"@,
        is_first_tagged(tags, selector, i),
    ensures
        selected(tags, selector) == Ok::<int, SelectFault>(i),
{
    assert(tags.contains(selector));
    let j = choose|j: int| is_first_tagged(tags, selector, j);
    assert(is_first_tagged(tags, selector, j));
    if j < i {
        assert(tags[j] != selector);
    }
    if i < j {
        assert(tags[i] != selector);
    }
}

/// The position of the release that `selector` chooses.
pub fn select_release_index(releases: &[Release], selector: &str) -> (r: Result<usize>)
    ensures
        match r {
            Ok(i) => i < releases@.len() && selected(tags_of(releases@), selector@) == Ok::<
                int,
                SelectFault,
            >(i as int),
            Err(e) => match selected(tags_of(releases@), selector@) {
                Ok(_) => false,
                Err(SelectFault::NoReleases) => e is NoReleases,
                Err(SelectFault::NotFound) => e matches GhrError::ReleaseNotFound { tag } && tag@
                    == selector@,
            },
        },
{
    let ghost tags = tags_of(releases@);
    let n = releases.len();
    if same_text(selector, "latest") {
        if n == 0 {
            return Err(GhrError::NoReleases);
        }
        return Ok(0);
    }
    let mut i: usize = 0;
    while i < n
        invariant
            i <= n,
            n == releases@.len(),
            tags == tags_of(releases@),
            selector@ != "latest"@,
            forall|j: int| 0 <= j < i ==> tags[j] != selector@,
        decreases n - i,
    {
        if same_text(releases[i].tag_name.as_str(), selector) {
            proof {
                assert(tags[i as int] == releases@[i as int].tag_name@);
                lemma_selected(tags, selector@, i as int);
            }
            return Ok(i);
        }
        assert(tags[i as int] == releases@[i as int].tag_name@);
        i += 1;
    }
    proof {
        if tags.contains(selector@) {
            let k = choose|k: int| 0 <= k < tags.len() && tags[k] == selector@;
            assert(tags[k] != selector@);
        }
    }
    Err(GhrError::ReleaseNotFound { tag: String::from_str(selector) })
}

/// The release that `selector` chooses: the first of the list for `latest`,
/// else the first with that tag.
pub fn select_release<'a>(releases: &'a [Release], selector: &str) -> (r: Result<&'a Release>)
    ensures
        match r {
            Ok(release) => selected(tags_of(releases@), selector@) matches Ok(i) && 0 <= i
                < releases@.len() && *release == releases@[i],
            Err(e) => match selected(tags_of(releases@), selector@) {
                Ok(_) => false,
                Err(SelectFault::NoReleases) => e is NoReleases,
                Err(SelectFault::NotFound) => e matches GhrError::ReleaseNotFound { tag } && tag@
                    == selector@,
            },
        },
{
    match select_release_index(releases, selector) {
        Ok(i) => Ok(&releases[i]),
        Err(e) => Err(e),
    }
}

/// One download: which asset, from where, to which file, and how large it
/// is expected to be.
#[derive(Debug)]
pub struct DownloadTask {
    pub name: String,
    pub url: String,
    pub destination: String,
    pub size: u64,
}

/// A download as the contracts see it.
pub struct TaskView {
    pub name: Seq<char>,
    pub url: Seq<char>,
    pub destination: Seq<char>,
    pub size: u64,
}

impl View for DownloadTask {
    type V = TaskView;

    open spec fn view(&self) -> TaskView {
        TaskView {
            name: self.name@,
            url: self.url@,
            destination: self.destination@,
            size: self.size,
        }
    }
}

/// The file that an asset is saved to: its name inside the directory, or
/// the bare name where no directory is given.
pub open spec fn destination_path(dir: Option<Seq<char>>, name: Seq<char>) -> Seq<char> {
    match dir {
        None => name,
        Some(d) => joined_path(d, name),
    }
}

/// The download of an asset.
pub open spec fn task_for(asset: AssetView, dir: Option<Seq<char>>) -> TaskView {
    TaskView {
        name: asset.name,
        url: asset.url,
        destination: destination_path(dir, asset.name),
        size: asset.size,
    }
}

/// The downloads of a release: one for each asset whose name passes every
/// filter, in the order of the assets.
pub open spec fn planned(assets: Seq<AssetView>, filters: Seq<FilterSpec>, dir: Option<
    Seq<char>,
>) -> Seq<TaskView>
    decreases assets.len(),
{
    if assets.len() == 0 {
        Seq::empty()
    } else {
        let before = planned(assets.drop_last(), filters, dir);
        if all_match(filters, assets.last().name) {
            before.push(task_for(assets.last(), dir))
        } else {
            before
        }
    }
}

/// The file that the asset `name` is saved to.
pub fn destination_for(dir: Option<&str>, name: &str) -> (r: String)
    ensures
        r@ == destination_path(
            match dir {
                Some(d) => Some(d@),
                None => None,
            },
            name@,
        ),
{
    match dir {
        None => String::from_str(name),
        Some(d) => join_path(d, name),
    }
}

/// The downloads of a release under a set of filters.
pub fn plan_downloads(release: &Release, filters: &[FilterType], dir: Option<&str>) -> (tasks: Vec<
    DownloadTask,
>)
    ensures
        tasks@.map_values(|t: DownloadTask| t@) == planned(
            release.asset_views(),
            filters@.map_values(|f: FilterType| f@),
            match dir {
                Some(d) => Some(d@),
                None => None,
            },
        ),
        tasks@.len() <= release.assets@.len(),
{
    let ghost assets = release.asset_views();
    let ghost specs = filters@.map_values(|f: FilterType| f@);
    let ghost d = match dir {
        Some(d) => Some(d@),
        None => None,
    };
    let mut tasks: Vec<DownloadTask> = Vec::new();
    let n = release.assets.len();
    let mut i: usize = 0;
    assert(assets.take(0) =~= Seq::<AssetView>::empty());
    while i < n
        invariant
            i <= n,
            n == release.assets@.len(),
            assets == release.asset_views(),
            specs == filters@.map_values(|f: FilterType| f@),
            d == match dir {
                Some(d) => Some(d@),
                None => None,
            },
            tasks@.len() <= i,
            tasks@.map_values(|t: DownloadTask| t@) == planned(assets.take(i as int), specs, d),
        decreases n - i,
    {
        let asset = &release.assets[i];
        let ghost before = tasks@.map_values(|t: DownloadTask| t@);
        proof {
            let upto = assets.take(i + 1);
            assert(upto.drop_last() =~= assets.take(i as int));
            assert(upto.last() == asset@);
        }
        if apply_filters(asset.name.as_str(), filters) {
            let task = DownloadTask {
                name: asset.name.clone(),
                url: asset.browser_download_url.clone(),
                destination: destination_for(dir, asset.name.as_str()),
                size: asset.size,
            };
            assert(task@ == task_for(asset@, d));
            tasks.push(task);
            assert(tasks@.map_values(|t: DownloadTask| t@) =~= before.push(task_for(asset@, d)));
        }
        i += 1;
    }
    assert(assets.take(n as int) =~= assets);
    tasks
}

/// No filter lets every asset through: the plan has one download for each
/// asset.
pub proof fn law_no_filter_plans_everything(assets: Seq<AssetView>, dir: Option<Seq<char>>)
    ensures
        planned(assets, Seq::<FilterSpec>::empty(), dir) == assets.map_values(
            |a: AssetView| task_for(a, dir),
        ),
    decreases assets.len(),
{
    let all = assets.map_values(|a: AssetView| task_for(a, dir));
    if assets.len() == 0 {
        assert(all =~= Seq::<TaskView>::empty());
    } else {
        law_no_filter_plans_everything(assets.drop_last(), dir);
        assert(all =~= assets.drop_last().map_values(|a: AssetView| task_for(a, dir)).push(
            task_for(assets.last(), dir),
        ));
    }
}

/// `i` is the position of the first tag of the list that selects nothing.
pub open spec fn is_first_unselected(tags: Seq<Seq<char>>, wanted: Seq<Seq<char>>, i: int) -> bool {
    &&& 0 <= i < wanted.len()
    &&& selected(tags, wanted[i]) is Err
    &&& forall|j: int| 0 <= j < i ==> selected(tags, #[trigger] wanted[j]) is Ok
}

/// The positions of the releases that a list of selectors chooses, which
/// commas part: one for each selector, in order. The first selector that
/// chooses nothing makes the whole list fail with its error.
pub fn select_listed(releases: &[Release], list: &str) -> (r: Result<Vec<usize>>)
    ensures
        match r {
            Ok(found) => {
                &&& found@.len() == split(list@, ',').len()
                &&& forall|i: int|
                    0 <= i < found@.len() ==> found@[i] < releases@.len() && selected(
                        tags_of(releases@),
                        #[trigger] split(list@, ',')[i],
                    ) == Ok::<int, SelectFault>(found@[i] as int)
            },
            Err(e) => exists|i: int|
                is_first_unselected(tags_of(releases@), split(list@, ','), i) && (match selected(
                    tags_of(releases@),
                    split(list@, ',')[i],
                ) {
                    Ok(_) => false,
                    Err(SelectFault::NoReleases) => e is NoReleases,
                    Err(SelectFault::NotFound) => e matches GhrError::ReleaseNotFound { tag }
                        && tag@ == split(list@, ',')[i],
                }),
        },
{
    let chars = to_chars(list);
    let parts = split_chars(chars.as_slice(), ',');
    let ghost wanted = split(list@, ',');
    let ghost tags = tags_of(releases@);
    let mut found: Vec<usize> = Vec::new();
    let n = parts.len();
    let mut i: usize = 0;
    while i < n
        invariant
            i <= n,
            n == parts@.len(),
            wanted == split(list@, ','),
            wanted == parts@.map_values(|piece: Vec<char>| piece@),
            tags == tags_of(releases@),
            found@.len() == i,
            forall|j: int|
                0 <= j < i ==> found@[j] < releases@.len() && selected(tags, #[trigger] wanted[j])
                    == Ok::<int, SelectFault>(found@[j] as int),
        decreases n - i,
    {
        let selector = from_chars(parts[i].as_slice());
        assert(selector@ == wanted[i as int]);
        match select_release_index(releases, selector.as_str()) {
            Ok(k) => {
                found.push(k);
            },
            Err(e) => {
                assert(is_first_unselected(tags, wanted, i as int));
                return Err(e);
            },
        }
        i += 1;
    }
    Ok(found)
}

/// No two of the assets have the same name, as it is within one release.
pub open spec fn distinct_names(assets: Seq<AssetView>) -> bool {
    forall|i: int, j: int|
        0 <= i < j < assets.len() ==> (#[trigger] assets[i]).name != (#[trigger] assets[j]).name
}

/// No two of the downloads write to the same file.
pub open spec fn distinct_destinations(tasks: Seq<TaskView>) -> bool {
    forall|i: int, j: int|
        0 <= i < j < tasks.len() ==> (#[trigger] tasks[i]).destination != (
        #[trigger] tasks[j]).destination
}

/// The download is that of one of the assets.
pub open spec fn planned_from(task: TaskView, assets: Seq<AssetView>, dir: Option<Seq<char>>) -> bool {
    exists|i: int| 0 <= i < assets.len() && task == task_for(#[trigger] assets[i], dir)
}

/// Files of different names in one directory are different files.
pub proof fn lemma_destination_tells_names_apart(dir: Option<Seq<char>>, a: Seq<char>, b: Seq<char>)
    requires
        destination_path(dir, a) == destination_path(dir, b),
    ensures
        a == b,
{
    match dir {
        None => {},
        Some(d) => {
            if d.len() == 0 {
            } else if d.last() == '/' {
                assert((d + a).skip(d.len() as int) =~= a);
                assert((d + b).skip(d.len() as int) =~= b);
            } else {
                let front = d + seq!['/'];
                assert((front + a).skip(front.len() as int) =~= a);
                assert((front + b).skip(front.len() as int) =~= b);
            }
        },
    }
}

/// Every download of a plan is that of one of the assets.
pub proof fn lemma_plan_comes_from_assets(
    assets: Seq<AssetView>,
    filters: Seq<FilterSpec>,
    dir: Option<Seq<char>>,
)
    ensures
        forall|k: int|
            0 <= k < planned(assets, filters, dir).len() ==> planned_from(
                #[trigger] planned(assets, filters, dir)[k],
                assets,
                dir,
            ),
    decreases assets.len(),
{
    if assets.len() > 0 {
        let rest = assets.drop_last();
        let before = planned(rest, filters, dir);
        let plan = planned(assets, filters, dir);
        lemma_plan_comes_from_assets(rest, filters, dir);
        assert forall|k: int| 0 <= k < plan.len() implies planned_from(
            #[trigger] plan[k],
            assets,
            dir,
        ) by {
            if k < before.len() {
                assert(plan[k] == before[k]);
                assert(planned_from(before[k], rest, dir));
                let i = choose|i: int|
                    0 <= i < rest.len() && before[k] == task_for(#[trigger] rest[i], dir);
                assert(rest[i] == assets[i]);
            } else {
                assert(plan[k] == task_for(assets[assets.len() - 1], dir));
            }
        }
    }
}

/// Where no two assets of a release have the same name, no two downloads of
/// a plan write to the same file: downloads that run at once never contend
/// for a file.
pub proof fn law_distinct_assets_get_distinct_files(
    assets: Seq<AssetView>,
    filters: Seq<FilterSpec>,
    dir: Option<Seq<char>>,
)
    requires
        distinct_names(assets),
    ensures
        distinct_destinations(planned(assets, filters, dir)),
    decreases assets.len(),
{
    if assets.len() > 0 {
        let rest = assets.drop_last();
        let last = assets.last();
        let before = planned(rest, filters, dir);
        let plan = planned(assets, filters, dir);
        assert(distinct_names(rest)) by {
            assert forall|i: int, j: int| 0 <= i < j < rest.len() implies (#[trigger] rest[i]).name
                != (#[trigger] rest[j]).name by {
                assert(rest[i] == assets[i]);
                assert(rest[j] == assets[j]);
            }
        }
        law_distinct_assets_get_distinct_files(rest, filters, dir);
        lemma_plan_comes_from_assets(rest, filters, dir);
        assert forall|i: int, j: int| 0 <= i < j < plan.len() implies (#[trigger] plan[i]).destination
            != (#[trigger] plan[j]).destination by {
            if j < before.len() {
                assert(plan[i] == before[i]);
                assert(plan[j] == before[j]);
            } else {
                assert(plan[i] == before[i]);
                assert(plan[j] == task_for(last, dir));
                assert(planned_from(before[i], rest, dir));
                let k = choose|k: int|
                    0 <= k < rest.len() && before[i] == task_for(#[trigger] rest[k], dir);
                assert(rest[k] == assets[k]);
                assert(last == assets[assets.len() - 1]);
                assert(assets[k].name != assets[assets.len() - 1].name);
                if plan[i].destination == plan[j].destination {
                    lemma_destination_tells_names_apart(dir, assets[k].name, last.name);
                }
            }
        }
    }
}

} // verus!
