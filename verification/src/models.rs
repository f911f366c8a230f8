//! The records that the API returns and the tool passes around.

use crate::text::concat2;
use crate::text::decimal;
use crate::text::pad_left;
use crate::text::pad_right;
use crate::text::padded;
use crate::text::padded_left;
use crate::text::to_chars;
use crate::text::to_decimal;
use crate::text::truncate;
use crate::text::truncated;
use vstd::prelude::*;
use vstd::string::StringExecFns;

verus! {

/// What a clone request names, as parsed from the command line.
#[derive(Debug)]
pub struct CloneSpec {
    /// The account that owns the repository.
    pub owner: String,
    /// The repository's name.
    pub repo: String,
    /// The branch, tag or commit to check out, where one was given.
    pub ref_name: Option<String>,
    /// The request without its reference.
    pub original_url: String,
}

/// A clone request as the contracts see it.
pub struct CloneSpecView {
    pub owner: Seq<char>,
    pub repo: Seq<char>,
    pub ref_name: Option<Seq<char>>,
    pub original_url: Seq<char>,
}

impl View for CloneSpec {
    type V = CloneSpecView;

    open spec fn view(&self) -> CloneSpecView {
        CloneSpecView {
            owner: self.owner@,
            repo: self.repo@,
            ref_name: match self.ref_name {
                Some(r) => Some(r@),
                None => None,
            },
            original_url: self.original_url@,
        }
    }
}

/// A file attached to a release.
#[derive(Debug)]
pub struct Asset {
    /// The file name, unique within its release.
    pub name: String,
    /// Where the file is downloaded from.
    pub browser_download_url: String,
    /// The size in bytes.
    pub size: u64,
    /// How often the file has been downloaded.
    pub download_count: u32,
}

/// An asset as the contracts see it.
pub struct AssetView {
    pub name: Seq<char>,
    pub url: Seq<char>,
    pub size: u64,
    pub download_count: u32,
}

impl View for Asset {
    type V = AssetView;

    open spec fn view(&self) -> AssetView {
        AssetView {
            name: self.name@,
            url: self.browser_download_url@,
            size: self.size,
            download_count: self.download_count,
        }
    }
}

/// A release of a repository.
#[derive(Debug)]
pub struct Release {
    /// The tag, unique within the repository.
    pub tag_name: String,
    /// The display name, where the release has one.
    pub name: Option<String>,
    /// When the release was created, in ISO 8601, where the API says so.
    pub created_at: Option<String>,
    /// When the release was published, in ISO 8601.
    pub published_at: String,
    /// Whether the release is a draft.
    pub draft: bool,
    /// Whether the release is a pre-release.
    pub prerelease: bool,
    /// The attached files, in the order of the API.
    pub assets: Vec<Asset>,
    /// The release notes, where there are any.
    pub body: Option<String>,
}

/// Whether `chrono::DateTime::parse_from_rfc3339` reads the text as a date
/// and time.
pub uninterp spec fn is_rfc3339(date: Seq<char>) -> bool;

/// The text of an optional string, or `default` where there is none.
pub open spec fn text_or(s: Option<String>, default: Seq<char>) -> Seq<char> {
    match s {
        Some(t) => t@,
        None => default,
    }
}

/// The kind of a release as the list shows it.
pub open spec fn kind_label(draft: bool, prerelease: bool) -> Seq<char> {
    if draft {
        "Draft"@
    } else if prerelease {
        "Pre"@
    } else {
        "Rel"@
    }
}

/// The date that the list shows for a release: when it was published,
/// else when it was created, else `Unknown`.
pub open spec fn date_shown(published: Option<Seq<char>>, created: Option<Seq<char>>) -> Seq<char> {
    match published {
        Some(p) => p,
        None => match created {
            Some(c) => c,
            None => "Unknown"@,
        },
    }
}

/// The line of a release in the list: name and tag, each cut to fifteen
/// characters, the kind, the date and the number of assets, in columns.
pub open spec fn release_summary(
    name: Seq<char>,
    tag: Seq<char>,
    kind: Seq<char>,
    date: Seq<char>,
    assets: nat,
) -> Seq<char> {
    padded(truncated(name, 15), 15) + " "@ + padded(truncated(tag, 15), 15) + " "@ + padded(
        kind,
        5,
    ) + " "@ + padded(date, 20) + " "@ + padded_left(decimal(assets), 4)
}

/// The line that describes one asset.
pub open spec fn asset_line(asset: AssetView) -> Seq<char> {
    "  "@ + asset.name + " size: "@ + decimal(asset.size as nat) + " download count: "@ + decimal(
        asset.download_count as nat,
    ) + "\n"@
}

/// The lines that describe the assets, in order.
pub open spec fn asset_lines(assets: Seq<AssetView>) -> Seq<char>
    decreases assets.len(),
{
    if assets.len() == 0 {
        Seq::empty()
    } else {
        asset_lines(assets.drop_last()) + asset_line(assets.last())
    }
}

/// The part of a description that shows the release notes: nothing where
/// there are none.
pub open spec fn notes_block(body: Option<Seq<char>>) -> Seq<char> {
    match body {
        Some(b) => if b.len() > 0 {
            "\nRelease Notes:\n"@ + b + "\n"@
        } else {
            Seq::empty()
        },
        None => Seq::empty(),
    }
}

/// `chrono::DateTime::parse_from_rfc3339`, then the date and time in the
/// machine's time zone as `%Y-%m-%d %H:%M:%S`. There is a result exactly
/// where the text parses; what it reads depends on the time zone, so
/// nothing more is claimed of it.
#[verifier::external_body]
fn local_date_text(date: &str) -> (r: Option<String>)
    ensures
        r is Some <==> is_rfc3339(date@),
{
    match chrono::DateTime::parse_from_rfc3339(date) {
        Ok(at) => Some(at.with_timezone(&chrono::Local).format("%Y-%m-%d %H:%M:%S").to_string()),
        Err(_) => None,
    }
}

impl Release {
    /// The assets as the contracts see them.
    pub open spec fn asset_views(&self) -> Seq<AssetView> {
        self.assets@.map_values(|a: Asset| a@)
    }

    /// What a full description of the release reads, given the dates as
    /// they are to be shown.
    pub open spec fn description(&self, created: Seq<char>, published: Seq<char>) -> Seq<char> {
        padded("Release"@, 12) + ": "@ + text_or(self.name, "Unnamed"@) + " ["@ + (if self.draft {
            "Draft"@
        } else {
            ""@
        }) + " "@ + (if self.prerelease {
            "Pre"@
        } else {
            ""@
        }) + "]\n"@ + padded("Tag"@, 12) + ": "@ + self.tag_name@ + "\n"@ + padded(
            "Created"@,
            12,
        ) + ": "@ + created + "\n"@ + padded("Published"@, 12) + ": "@ + published + "\n"@
            + notes_block(
            match self.body {
                Some(b) => Some(b@),
                None => None,
            },
        ) + "\nAssets:\n"@ + asset_lines(self.asset_views())
    }

    /// A date and time of the API in the machine's time zone, where the
    /// text is one.
    pub fn date_string(date: &str) -> (r: Option<String>)
        ensures
            r is Some <==> is_rfc3339(date@),
    {
        local_date_text(date)
    }

    /// The date that the list shows, given what came of reading the two
    /// dates of the release.
    pub fn date_info_from(published: Option<String>, created: Option<String>) -> (r: String)
        ensures
            r@ == date_shown(
                match published {
                    Some(p) => Some(p@),
                    None => None,
                },
                match created {
                    Some(c) => Some(c@),
                    None => None,
                },
            ),
    {
        match published {
            Some(p) => p,
            None => match created {
                Some(c) => c,
                None => String::from_str("Unknown"),
            },
        }
    }

    /// The date that the list shows for the release: `Unknown` exactly
    /// where neither of its dates can be read.
    pub fn date_info(&self) -> (r: String)
        ensures
            !is_rfc3339(self.published_at@) && !is_rfc3339(text_or(self.created_at, ""@)) ==> r@
                == "Unknown"@,
    {
        let published = Release::date_string(self.published_at.as_str());
        let created = match &self.created_at {
            Some(c) => Release::date_string(c.as_str()),
            None => Release::date_string(""),
        };
        Release::date_info_from(published, created)
    }

    /// The line of the release in the list, given the date to show.
    pub fn summary_with(&self, date: &str) -> (r: String)
        ensures
            r@ == release_summary(
                text_or(self.name, "Unnamed"@),
                self.tag_name@,
                kind_label(self.draft, self.prerelease),
                date@,
                self.assets@.len(),
            ),
    {
        let kind = if self.draft {
            "Draft"
        } else if self.prerelease {
            "Pre"
        } else {
            "Rel"
        };
        let name = match &self.name {
            Some(n) => truncate(n.as_str(), 15),
            None => truncate("Unnamed", 15),
        };
        let mut s = pad_right(name.as_str(), 15);
        s.append(" ");
        s.append(pad_right(truncate(self.tag_name.as_str(), 15).as_str(), 15).as_str());
        s.append(" ");
        s.append(pad_right(kind, 5).as_str());
        s.append(" ");
        s.append(pad_right(date, 20).as_str());
        s.append(" ");
        s.append(pad_left(to_decimal(self.assets.len() as u64).as_str(), 4).as_str());
        s
    }

    /// The line of the release in the list.
    pub fn summary(&self) -> (r: String)
        ensures
            exists|date: Seq<char>|
                r@ == release_summary(
                    text_or(self.name, "Unnamed"@),
                    self.tag_name@,
                    kind_label(self.draft, self.prerelease),
                    date,
                    self.assets@.len(),
                ),
    {
        let date = self.date_info();
        self.summary_with(date.as_str())
    }

    /// The full description of the release, given the dates as they are to
    /// be shown.
    pub fn render_with(&self, created: &str, published: &str) -> (r: String)
        ensures
            r@ == self.description(created@, published@),
    {
        let mut s = pad_right("Release", 12);
        s.append(": ");
        match &self.name {
            Some(n) => s.append(n.as_str()),
            None => s.append("Unnamed"),
        }
        s.append(" [");
        s.append(if self.draft {
            "Draft"
        } else {
            ""
        });
        s.append(" ");
        s.append(if self.prerelease {
            "Pre"
        } else {
            ""
        });
        s.append("]\n");
        s.append(pad_right("Tag", 12).as_str());
        s.append(": ");
        s.append(self.tag_name.as_str());
        s.append("\n");
        s.append(pad_right("Created", 12).as_str());
        s.append(": ");
        s.append(created);
        s.append("\n");
        s.append(pad_right("Published", 12).as_str());
        s.append(": ");
        s.append(published);
        s.append("\n");
        let ghost head = s@;
        match &self.body {
            Some(b) => {
                if b.as_str().unicode_len() > 0 {
                    let mut notes = String::from_str("\nRelease Notes:\n");
                    notes.append(b.as_str());
                    notes.append("\n");
                    s.append(notes.as_str());
                } else {
                    assert(s@ =~= head + Seq::<char>::empty());
                }
            },
            None => {
                assert(s@ =~= head + Seq::<char>::empty());
            },
        }
        s.append("\nAssets:\n");
        let ghost front = s@;
        let ghost views = self.asset_views();
        let n = self.assets.len();
        let mut i: usize = 0;
        assert(views.take(0) =~= Seq::<AssetView>::empty());
        assert(s@ =~= front + asset_lines(views.take(0)));
        while i < n
            invariant
                i <= n,
                n == self.assets@.len(),
                views == self.asset_views(),
                s@ == front + asset_lines(views.take(i as int)),
            decreases n - i,
        {
            let asset = &self.assets[i];
            proof {
                assert(views.take(i + 1).drop_last() =~= views.take(i as int));
                assert(views.take(i + 1).last() == asset@);
            }
            let mut line = String::from_str("  ");
            line.append(asset.name.as_str());
            line.append(" size: ");
            line.append(to_decimal(asset.size).as_str());
            line.append(" download count: ");
            line.append(to_decimal(asset.download_count as u64).as_str());
            line.append("\n");
            assert(line@ == asset_line(asset@));
            s.append(line.as_str());
            assert(s@ =~= front + asset_lines(views.take(i + 1)));
            i += 1;
        }
        assert(views.take(n as int) =~= views);
        s
    }

    /// The full description of the release. A date that cannot be read is
    /// shown as `-`.
    pub fn render(&self) -> (r: String)
        ensures
            exists|created: Seq<char>, published: Seq<char>|
                r@ == self.description(created, published),
            !is_rfc3339(self.published_at@) && !is_rfc3339(text_or(self.created_at, "-"@)) ==> r@
                == self.description("-"@, "-"@),
    {
        let created = match &self.created_at {
            Some(c) => Release::date_string(c.as_str()),
            None => Release::date_string("-"),
        };
        let published = Release::date_string(self.published_at.as_str());
        let c = match created {
            Some(t) => t,
            None => String::from_str("-"),
        };
        let p = match published {
            Some(t) => t,
            None => String::from_str("-"),
        };
        self.render_with(c.as_str(), p.as_str())
    }
}

/// The answer of the search API.
#[derive(Debug)]
pub struct SearchResponse {
    pub items: Vec<Repository>,
}

/// A repository as the search API describes it.
#[derive(Debug)]
pub struct Repository {
    pub name: String,
    /// Owner and name, `owner/name`.
    pub full_name: String,
    pub description: Option<String>,
    pub stargazers_count: u32,
    pub html_url: String,
    pub owner: Owner,
    pub private: bool,
}

/// The mark of a private repository, or the blank of a public one.
pub open spec fn privacy_mark(private: bool) -> Seq<char> {
    if private {
        "*"@
    } else {
        " "@
    }
}

/// The line of a repository in a list: the stars, the privacy mark and the
/// full name, in columns.
pub open spec fn repository_summary(stars: u32, private: bool, full_name: Seq<char>) -> Seq<char> {
    padded(decimal(stars as nat), 7) + " "@ + padded(privacy_mark(private), 2) + padded(
        full_name,
        40,
    )
}

/// A description as a list shows it: one of more than fifty characters is
/// cut to forty-seven and ends in three dots.
pub open spec fn description_shown(description: Seq<char>) -> Seq<char> {
    if description.len() > 50 {
        description.take(47) + "..."@
    } else {
        description
    }
}

impl Repository {
    /// The line of the repository in a list.
    pub fn summary(&self) -> (r: String)
        ensures
            r@ == repository_summary(self.stargazers_count, self.private, self.full_name@),
    {
        let mark = if self.private {
            "*"
        } else {
            " "
        };
        let mut s = pad_right(to_decimal(self.stargazers_count as u64).as_str(), 7);
        s.append(" ");
        s.append(pad_right(mark, 2).as_str());
        s.append(pad_right(self.full_name.as_str(), 40).as_str());
        s
    }

    /// The line of the repository with its description.
    pub fn render(&self) -> (r: String)
        ensures
            r@ == repository_summary(self.stargazers_count, self.private, self.full_name@) + " "@
                + padded(description_shown(text_or(self.description, ""@)), 52),
    {
        let shown = match &self.description {
            Some(d) => {
                let chars = to_chars(d.as_str());
                if chars.len() > 50 {
                    concat2(truncate(d.as_str(), 47).as_str(), "...")
                } else {
                    d.clone()
                }
            },
            None => String::from_str(""),
        };
        proof {
            reveal_strlit("");
            assert(""@ =~= Seq::<char>::empty());
        }
        let mut s = self.summary();
        s.append(" ");
        s.append(pad_right(shown.as_str(), 52).as_str());
        s
    }
}

/// The account that owns a repository.
#[derive(Debug)]
pub struct Owner {
    pub login: String,
}

/// A repository as the repository API describes it.
#[derive(Debug)]
pub struct RepositoryInfo {
    pub name: String,
    pub full_name: String,
    pub default_branch: String,
    pub private: bool,
}

} // verus!
