//! Repository names, fetched tag pages, and the relative-age formatter.

use vstd::prelude::*;

verus! {

use vstd::string::StrSliceExecFns;
use vstd::string::StringExecFns;
use crate::strings::dec_str;
use crate::strings::u64_to_dec;

/// Everything that can go wrong while fetching, validating or splicing.
#[derive(Debug)]
pub enum Error {
    InvalidCharacter(char),
    Fetching(String),
    Converting(String),
    NextPageSelected,
    NoSelection,
    NoMatch,
    SaveFailure(String),
}

/// The message shown to the user for each error kind.
pub open spec fn error_message(e: Error) -> Seq<char> {
    match e {
        Error::InvalidCharacter(c) => "Invalid Character: "@ + seq![c],
        Error::Fetching(s) => "Fetching error: "@ + s@,
        Error::Converting(s) => "Converting error: "@ + s@,
        Error::NextPageSelected => "next page selected"@,
        Error::NoSelection => "no tag selected"@,
        Error::NoMatch => "no image found"@,
        Error::SaveFailure(s) => "Saving error: "@ + s@,
    }
}

impl Error {
    /// Renders the error for display.
    pub fn message(&self) -> (r: String)
        ensures
            r@ == error_message(*self),
    {
        match self {
            Error::InvalidCharacter(c) => {
                let mut s = String::from_str("Invalid Character: ");
                crate::strings::push_char(&mut s, *c);
                s
            },
            Error::Fetching(s) => String::from_str("Fetching error: ").concat(s.as_str()),
            Error::Converting(s) => String::from_str("Converting error: ").concat(s.as_str()),
            Error::NextPageSelected => String::from_str("next page selected"),
            Error::NoSelection => String::from_str("no tag selected"),
            Error::NoMatch => String::from_str("no image found"),
            Error::SaveFailure(s) => String::from_str("Saving error: ").concat(s.as_str()),
        }
    }
}

/// One architecture entry of a fetched tag.
pub struct ImageDetails {
    pub architecture: String,
    pub os: String,
    pub size: usize,
}

/// One fetched tag: its name, when it was last pushed, and its architectures.
pub struct Images {
    pub images: Vec<ImageDetails>,
    pub tag_name: String,
    pub last_updated: String,
}

/// One page of the tag listing, with the opaque cursors of its neighbours.
pub struct Tags {
    pub next_page: Option<String>,
    pub prev_page: Option<String>,
    pub results: Vec<Images>,
}

/// A character inside the ASCII range.
pub open spec fn ascii_char(c: char) -> bool {
    c <= '\u{7f}'
}

/// Every character of the string is ASCII.
pub open spec fn all_ascii(s: Seq<char>) -> bool {
    forall|i: int| 0 <= i < s.len() ==> ascii_char(#[trigger] s[i])
}

/// The string holds a namespace separator.
pub open spec fn has_separator(s: Seq<char>) -> bool {
    exists|i: int| 0 <= i < s.len() && s[i] == '/'
}

/// The default namespace prefixed to bare repository names.
pub open spec fn default_namespace() -> Seq<char> {
    "library/"@
}

/// What a valid repository name normalizes to: unchanged when it already
/// carries a namespace, prefixed with the default namespace otherwise.
pub open spec fn normalized_repo(s: Seq<char>) -> Seq<char> {
    if has_separator(s) {
        s
    } else {
        default_namespace() + s
    }
}

/// The tag-listing endpoint for a repository.
pub open spec fn spec_request_url(repo: Seq<char>) -> Seq<char> {
    "https://hub.docker.com/v2/repositories/"@ + repo + "/tags"@
}

/// Builds the tag-listing URL for a repository.
pub fn request_url(repo: &str) -> (r: String)
    ensures
        r@ == spec_request_url(repo@),
{
    String::from_str("https://hub.docker.com/v2/repositories/").concat(repo).concat("/tags")
}

impl Tags {
    /// Assembles a tag page from its parsed parts.
    pub fn new(results: Vec<Images>, next_page: Option<String>, prev_page: Option<String>) -> (r:
        Tags)
        ensures
            r.results == results,
            r.next_page == next_page,
            r.prev_page == prev_page,
    {
        Tags { next_page, prev_page, results }
    }

    /// Validates a repository name: every character must be ASCII, and a name
    /// without a namespace separator gets the default namespace prefixed.
    pub fn check_repo(name: String) -> (r: Result<String, Error>)
        ensures
            all_ascii(name@) ==> (r matches Ok(s) && s@ == normalized_repo(name@)),
            !all_ascii(name@) ==> (r matches Err(e) && e matches Error::InvalidCharacter(c)
                && exists|i: int| 0 <= i < name@.len() && name@[i] == c && !ascii_char(c)),
    {
        let n = name.as_str().unicode_len();
        let mut has_sep = false;
        let mut i: usize = 0;
        while i < n
            invariant
                i <= n,
                n == name@.len(),
                forall|j: int| 0 <= j < i ==> ascii_char(#[trigger] name@[j]),
                has_sep <==> exists|j: int| 0 <= j < i && name@[j] == '/',
            decreases n - i,
        {
            let c = name.as_str().get_char(i);
            if c > '\u{7f}' {
                return Err(Error::InvalidCharacter(c));
            }
            if c == '/' {
                has_sep = true;
            }
            i += 1;
        }
        if has_sep {
            Ok(name)
        } else {
            Ok(String::from_str("library/").concat(name.as_str()))
        }
    }
}

/// The epoch seconds encoded by an RFC 3339 timestamp string, when it parses.
pub uninterp spec fn rfc3339_secs_of(s: Seq<char>) -> Option<i64>;

/// Relies on chrono's `DateTime::parse_from_rfc3339` and `DateTime::timestamp`:
/// the epoch seconds of a timestamp string depend on the string alone, and a
/// string that does not parse yields `None`.
#[verifier::external_body]
pub fn parse_rfc3339_epoch(s: &str) -> (r: Option<i64>)
    ensures
        r == rfc3339_secs_of(s@),
{
    match chrono::DateTime::parse_from_rfc3339(s) {
        Ok(dt) => Some(dt.timestamp()),
        Err(_) => None,
    }
}

/// Relies on chrono's `Utc::now` and `DateTime::timestamp` for the current
/// time; nothing is promised of the value.
#[verifier::external_body]
pub fn now_epoch_secs() -> i64 {
    chrono::Utc::now().timestamp()
}

/// The age label for a duration in seconds. The buckets are tried top to
/// bottom and the first that fits wins; durations strictly between 52 and 103
/// weeks fall through the year buckets onto the day bucket.
pub open spec fn age_string(secs: nat) -> Seq<char> {
    let weeks = secs / 604800;
    let days = secs / 86400;
    let hours = secs / 3600;
    let minutes = secs / 60;
    if weeks == 52 {
        dec_str(weeks / 52) + " Jahr"@
    } else if weeks > 103 {
        dec_str(weeks / 52) + " Jahren"@
    } else if days == 1 {
        dec_str(days) + " Tag"@
    } else if days > 1 {
        dec_str(days) + " Tagen"@
    } else if hours == 1 {
        dec_str(hours) + " Stunde"@
    } else if hours > 1 {
        dec_str(hours) + " Stunden"@
    } else if minutes == 1 {
        dec_str(minutes) + " Minute"@
    } else if minutes > 1 {
        dec_str(minutes) + " Minuten"@
    } else {
        dec_str(secs) + " Sekunden"@
    }
}

/// Renders a duration as a relative-age label.
pub fn format_time_nice(secs: u64) -> (r: String)
    ensures
        r@ == age_string(secs as nat),
{
    let weeks = secs / 604800;
    let days = secs / 86400;
    let hours = secs / 3600;
    let minutes = secs / 60;
    if weeks == 52 {
        u64_to_dec(weeks / 52).concat(" Jahr")
    } else if weeks > 103 {
        u64_to_dec(weeks / 52).concat(" Jahren")
    } else if days == 1 {
        u64_to_dec(days).concat(" Tag")
    } else if days > 1 {
        u64_to_dec(days).concat(" Tagen")
    } else if hours == 1 {
        u64_to_dec(hours).concat(" Stunde")
    } else if hours > 1 {
        u64_to_dec(hours).concat(" Stunden")
    } else if minutes == 1 {
        u64_to_dec(minutes).concat(" Minute")
    } else if minutes > 1 {
        u64_to_dec(minutes).concat(" Minuten")
    } else {
        u64_to_dec(secs).concat(" Sekunden")
    }
}

/// The age of a tag at `now`: the distance to its parsed timestamp, or `None`
/// when the timestamp does not parse or lies outside the range from the epoch
/// up to `now`.
pub open spec fn age_secs(now: i64, updated: Option<i64>) -> Option<nat> {
    match updated {
        Some(t) => if 0 <= t <= now {
            Some((now - t) as nat)
        } else {
            None
        },
        None => None,
    }
}

/// What a fetched tag displays as at time `now`: its name followed by its
/// relative age, or the bare name when the timestamp cannot be read.
pub open spec fn display_line_spec(img: Images, now: i64) -> Seq<char> {
    match age_secs(now, rfc3339_secs_of(img.last_updated@)) {
        Some(d) => img.tag_name@ + " vor "@ + age_string(d),
        None => img.tag_name@,
    }
}

impl Images {
    /// Renders the tag's name and relative age at time `now`.
    pub fn display_line(&self, now_secs: i64) -> (r: String)
        ensures
            r@ == display_line_spec(*self, now_secs),
    {
        let parsed = parse_rfc3339_epoch(self.last_updated.as_str());
        match parsed {
            Some(t) => {
                if 0 <= t && t <= now_secs {
                    let d = (now_secs - t) as u64;
                    self.tag_name.clone().concat(" vor ").concat(format_time_nice(d).as_str())
                } else {
                    self.tag_name.clone()
                }
            },
            None => self.tag_name.clone(),
        }
    }
}

} // verus!
