//! What the tool says of its own version, and how it says it.

use vstd::prelude::*;
use vstd::string::StringExecFns;
use owo_colors::OwoColorize;

verus! {

/// The last tag before the commit, and how many commits lie between.
#[derive(Debug, Clone)]
pub struct CommitTagInfo {
    pub last_tag: String,
    pub commits_since: Option<String>,
}

/// The commit that a build was made from.
#[derive(Debug, Clone)]
pub struct CommitInfo {
    pub short_hash: String,
    pub hash: String,
    pub date: String,
    pub commit_tag_info: Option<CommitTagInfo>,
}

/// The version of a build.
#[derive(Debug, Clone)]
pub struct VersionInfo {
    /// SemVer version, such as "0.1.0".
    pub version: String,
    /// The commit the build was made from; absent where it was not built
    /// from a repository.
    pub commit_info: Option<CommitInfo>,
}

/// Mathematical value of a [`CommitTagInfo`].
pub struct CommitTagInfoView {
    pub last_tag: Seq<char>,
    pub commits_since: Option<Seq<char>>,
}

/// Mathematical value of a [`CommitInfo`].
pub struct CommitInfoView {
    pub short_hash: Seq<char>,
    pub hash: Seq<char>,
    pub date: Seq<char>,
    pub commit_tag_info: Option<CommitTagInfoView>,
}

/// Mathematical value of a [`VersionInfo`].
pub struct VersionInfoView {
    pub version: Seq<char>,
    pub commit_info: Option<CommitInfoView>,
}

impl DeepView for CommitTagInfo {
    type V = CommitTagInfoView;

    open spec fn deep_view(&self) -> CommitTagInfoView {
        CommitTagInfoView {
            last_tag: self.last_tag@,
            commits_since: self.commits_since.deep_view(),
        }
    }
}

impl DeepView for CommitInfo {
    type V = CommitInfoView;

    open spec fn deep_view(&self) -> CommitInfoView {
        CommitInfoView {
            short_hash: self.short_hash@,
            hash: self.hash@,
            date: self.date@,
            commit_tag_info: self.commit_tag_info.deep_view(),
        }
    }
}

impl DeepView for VersionInfo {
    type V = VersionInfoView;

    open spec fn deep_view(&self) -> VersionInfoView {
        VersionInfoView { version: self.version@, commit_info: self.commit_info.deep_view() }
    }
}

/// `text` between the escape sequence that sets the foreground colour
/// numbered by `code` and the one that resets it.
pub open spec fn painted(code: Seq<char>, text: Seq<char>) -> Seq<char> {
    seq!['\x1b', '['] + code + seq!['m'] + text + seq!['\x1b', '[', '3', '9', 'm']
}

/// Formats what `OwoColorize::blue` displays: the text in foreground colour
/// 34, followed by the reset of the foreground.
#[verifier::external_body]
fn paint_blue(text: &str) -> (out: String)
    ensures
        out@ == painted(seq!['3', '4'], text@),
{
    format!("{}", text.blue())
}

/// Formats what `OwoColorize::cyan` displays: the text in foreground colour
/// 36, followed by the reset of the foreground.
#[verifier::external_body]
fn paint_cyan(text: &str) -> (out: String)
    ensures
        out@ == painted(seq!['3', '6'], text@),
{
    format!("{}", text.cyan())
}

/// Formats what `OwoColorize::green` displays: the text in foreground colour
/// 32, followed by the reset of the foreground.
#[verifier::external_body]
fn paint_green(text: &str) -> (out: String)
    ensures
        out@ == painted(seq!['3', '2'], text@),
{
    format!("{}", text.green())
}

/// The tag part of the coloured line: tag, `+`, distance and a space, and
/// nothing where either is unknown.
pub open spec fn tag_part(tag: Option<CommitTagInfoView>) -> Seq<char> {
    match tag {
        Some(tag) => match tag.commits_since {
            Some(since) => tag.last_tag + seq!['+'] + since + seq![' '],
            None => Seq::empty(),
        },
        None => Seq::empty(),
    }
}

/// The coloured one-line form: the version in blue; then, where the commit
/// is known, its date in cyan and, in brackets, the tag part and the short
/// hash in green.
pub open spec fn coloured_line(info: VersionInfoView) -> Seq<char> {
    match info.commit_info {
        None => painted(seq!['3', '4'], info.version),
        Some(commit) => painted(seq!['3', '4'], info.version) + seq![' '] + painted(
            seq!['3', '6'],
            commit.date,
        ) + seq![' ', '('] + tag_part(commit.commit_tag_info) + painted(
            seq!['3', '2'],
            commit.short_hash,
        ) + seq![')'],
    }
}

/// The short form of a commit: ` (`, short hash, space, date, `)`.
pub open spec fn commit_summary(commit: CommitInfoView) -> Seq<char> {
    seq![' ', '('] + commit.short_hash + seq![' '] + commit.date + seq![')']
}

/// The tag line of the report; empty without a tag.
pub open spec fn tag_line(tag: Option<CommitTagInfoView>) -> Seq<char> {
    match tag {
        None => Seq::empty(),
        Some(tag) => "Latest tag:\t"@ + tag.last_tag + (match tag.commits_since {
            Some(since) => seq!['+'] + since,
            None => Seq::empty(),
        }) + seq!['\n'],
    }
}

/// The report: one line for the version and, where the commit is known, a
/// line for the tag if there is one, one for the hash and one for the date.
pub open spec fn report_text(info: VersionInfoView) -> Seq<char> {
    "CLI Version:\t"@ + info.version + seq!['\n'] + (match info.commit_info {
        None => Seq::empty(),
        Some(commit) => tag_line(commit.commit_tag_info) + "Commit hash:\t"@ + commit.short_hash
            + seq!['\n'] + "Commit date:\t"@ + commit.date + seq!['\n'],
    })
}

impl CommitInfo {
    /// The commit in short: its short hash and date in brackets, after a
    /// space.
    pub fn summary(&self) -> (text: String)
        ensures
            text@ == commit_summary(self.deep_view()),
    {
        proof {
            reveal_strlit(" (");
            reveal_strlit(" ");
            reveal_strlit(")");
        }
        let mut text = String::from_str(" (");
        text.append(self.short_hash.as_str());
        text.append(" ");
        text.append(self.date.as_str());
        text.append(")");
        assert(text@ =~= commit_summary(self.deep_view()));
        text
    }
}

impl VersionInfo {
    /// The version on one line, coloured for a terminal.
    pub fn coloured(&self) -> (text: String)
        ensures
            text@ == coloured_line(self.deep_view()),
    {
        proof {
            reveal_strlit(" ");
            reveal_strlit(" (");
            reveal_strlit("+");
            reveal_strlit(")");
        }
        let mut text = paint_blue(self.version.as_str());
        match &self.commit_info {
            None => {},
            Some(commit) => {
                text.append(" ");
                text.append(paint_cyan(commit.date.as_str()).as_str());
                text.append(" (");
                let ghost before = text@;
                match &commit.commit_tag_info {
                    Some(CommitTagInfo { last_tag, commits_since: Some(since) }) => {
                        text.append(last_tag.as_str());
                        text.append("+");
                        text.append(since.as_str());
                        text.append(" ");
                    },
                    _ => {},
                }
                assert(text@ =~= before + tag_part(commit.commit_tag_info.deep_view()));
                text.append(paint_green(commit.short_hash.as_str()).as_str());
                text.append(")");
                assert(text@ =~= coloured_line(self.deep_view()));
            },
        }
        text
    }

    /// The version as a report of several lines.
    pub fn report(&self) -> (text: String)
        ensures
            text@ == report_text(self.deep_view()),
    {
        proof {
            reveal_strlit("\n");
            reveal_strlit("+");
        }
        let mut text = String::from_str("CLI Version:\t");
        text.append(self.version.as_str());
        text.append("\n");
        match &self.commit_info {
            None => {
                assert(text@ =~= report_text(self.deep_view()));
            },
            Some(commit) => {
                let ghost before = text@;
                match &commit.commit_tag_info {
                    None => {},
                    Some(tag) => {
                        text.append("Latest tag:\t");
                        text.append(tag.last_tag.as_str());
                        match &tag.commits_since {
                            Some(since) => {
                                text.append("+");
                                text.append(since.as_str());
                            },
                            None => {},
                        }
                        text.append("\n");
                    },
                }
                assert(text@ =~= before + tag_line(commit.commit_tag_info.deep_view()));
                text.append("Commit hash:\t");
                text.append(commit.short_hash.as_str());
                text.append("\n");
                text.append("Commit date:\t");
                text.append(commit.date.as_str());
                text.append("\n");
                assert(text@ =~= report_text(self.deep_view()));
            },
        }
        text
    }
}

/// The version information that the build variables describe.
pub open spec fn described(
    version: Seq<char>,
    hash: Option<Seq<char>>,
    short_hash: Option<Seq<char>>,
    date: Option<Seq<char>>,
    last_tag: Option<Seq<char>>,
    distance: Option<Seq<char>>,
) -> VersionInfoView {
    VersionInfoView {
        version,
        commit_info: if hash is Some && short_hash is Some && date is Some {
            Some(
                CommitInfoView {
                    short_hash: short_hash->0,
                    hash: hash->0,
                    date: date->0,
                    commit_tag_info: match last_tag {
                        Some(last_tag) => Some(
                            CommitTagInfoView { last_tag, commits_since: distance },
                        ),
                        None => None,
                    },
                },
            )
        } else {
            None
        },
    }
}

/// Assembles the version information from the variables of the build. The
/// commit is known only where its hash, short hash and date all are; the tag
/// only where the commit is and a last tag was found.
pub fn nebu_version(
    version: &str,
    hash: Option<&str>,
    short_hash: Option<&str>,
    date: Option<&str>,
    last_tag: Option<&str>,
    distance: Option<&str>,
) -> (info: VersionInfo)
    ensures
        info.deep_view() == described(
            version@,
            hash.deep_view(),
            short_hash.deep_view(),
            date.deep_view(),
            last_tag.deep_view(),
            distance.deep_view(),
        ),
{
    let commit_info = match (hash, short_hash, date) {
        (Some(hash), Some(short_hash), Some(date)) => {
            let commit_tag_info = match last_tag {
                Some(last_tag) => Some(
                    CommitTagInfo {
                        last_tag: last_tag.to_owned(),
                        commits_since: match distance {
                            Some(distance) => Some(distance.to_owned()),
                            None => None,
                        },
                    },
                ),
                None => None,
            };
            Some(
                CommitInfo {
                    short_hash: short_hash.to_owned(),
                    hash: hash.to_owned(),
                    date: date.to_owned(),
                    commit_tag_info,
                },
            )
        },
        _ => None,
    };
    VersionInfo { version: version.to_owned(), commit_info }
}

} // verus!
