//! Where the external program is looked for. The caller reads the
//! environment and the file system; this file holds the order of the places
//! and the words of the answers.

use crate::text::{join2, opt_text, texts};
use vstd::prelude::*;
use vstd::string::*;

verus! {

/// The environment variable that names the program outright.
pub const OVERRIDE_VARIABLE: &'static str = "CLAUDE_SCRAPER_PATH";

/// The environment variable that stands in for the resource directory in tests.
pub const MOCK_RESOURCE_VARIABLE: &'static str = "TAURI_RESOURCE_DIR_MOCK";

/// The environment variable that holds the resource directory of a bundle.
pub const RESOURCE_VARIABLE: &'static str = "TAURI_RESOURCE_DIR";

/// The script of a development checkout, relative to the working directory.
pub const DEVELOPMENT_SCRIPT: &'static str = "../scraper/claude_scraper.py";

/// The place that a candidate comes from.
#[derive(Debug, Clone, Copy, PartialEq, Eq, Structural)]
pub enum Place {
    /// The path given outright.
    Override,
    /// Below the resource directory set for tests.
    MockResources,
    /// Below the resource directory of the bundle.
    Resources,
    /// The script of a development checkout.
    Development,
}

/// What the environment holds.
#[derive(Debug, Clone)]
pub struct Lookup {
    pub override_path: Option<String>,
    pub mock_resource_dir: Option<String>,
    pub resource_dir: Option<String>,
    /// Whether programs carry the extension `exe` here.
    pub windows: bool,
}

/// The one path to try: `base`, with `below` appended name by name.
#[derive(Debug, Clone)]
pub struct Candidate {
    pub place: Place,
    pub base: String,
    pub below: Vec<String>,
}

/// A `Candidate` in specifications.
pub struct CandidateView {
    pub place: Place,
    pub base: Seq<char>,
    pub below: Seq<Seq<char>>,
}

impl View for Candidate {
    type V = CandidateView;

    open spec fn view(&self) -> CandidateView {
        CandidateView { place: self.place, base: self.base@, below: texts(self.below@) }
    }
}

/// The names below a resource directory under which the program lies.
pub open spec fn bundled_names(windows: bool) -> Seq<Seq<char>> {
    seq![
        "scraper"@,
        if windows {
            "claude_scraper.exe"@
        } else {
            "claude_scraper"@
        },
    ]
}

/// The candidate for an environment: the first of override, mocked resource
/// directory and resource directory that is set, else the development script.
pub open spec fn chosen(lookup: Lookup) -> CandidateView {
    match lookup.override_path {
        Some(p) => CandidateView { place: Place::Override, base: p@, below: seq![] },
        None => match lookup.mock_resource_dir {
            Some(d) => CandidateView {
                place: Place::MockResources,
                base: d@,
                below: bundled_names(lookup.windows),
            },
            None => match lookup.resource_dir {
                Some(d) => CandidateView {
                    place: Place::Resources,
                    base: d@,
                    below: bundled_names(lookup.windows),
                },
                None => CandidateView {
                    place: Place::Development,
                    base: "../scraper/claude_scraper.py"@,
                    below: seq![],
                },
            },
        },
    }
}

/// What is said of a candidate that does not exist. `path` is the candidate
/// as one path.
pub open spec fn not_found(place: Place, base: Seq<char>, path: Seq<char>) -> Seq<char> {
    match place {
        Place::Override => "CLAUDE_SCRAPER_PATH is set to '"@ + base
            + "' but the file does not exist"@,
        Place::MockResources => "Mocked resource_dir '"@ + base + "' -> candidate '"@ + path
            + "' does not exist"@,
        Place::Resources => "Tauri resource dir detected at '"@ + base
            + "' but expected bundled scraper at '"@ + path
            + "' was not found. Ensure the scraper binary was included in the Tauri build resources."@,
        Place::Development =>
            "Could not locate scraper. Checked (in order): CLAUDE_SCRAPER_PATH, TAURI resource dir, and development path '"@
            + "../scraper/claude_scraper.py"@
            + "'. For development use a local Python environment and place the script at ../scraper/claude_scraper.py, or set CLAUDE_SCRAPER_PATH to point to your python script/executable. (candidate '"@
            + path + "' not found)"@,
    }
}

/// The answer of the resolver, in specifications.
pub open spec fn answer_view(r: Result<String, String>) -> Result<Seq<char>, Seq<char>> {
    match r {
        Ok(p) => Ok(p@),
        Err(m) => Err(m@),
    }
}

/// The answer for a candidate that was or was not found at `path`.
pub open spec fn resolved(candidate: CandidateView, path: Seq<char>, found: bool) -> Result<
    Seq<char>,
    Seq<char>,
> {
    if found {
        Ok(path)
    } else {
        Err(not_found(candidate.place, candidate.base, path))
    }
}

fn bundled(windows: bool) -> (v: Vec<String>)
    ensures
        texts(v@) == bundled_names(windows),
{
    let mut v: Vec<String> = Vec::new();
    v.push(String::from_str("scraper"));
    if windows {
        v.push(String::from_str("claude_scraper.exe"));
    } else {
        v.push(String::from_str("claude_scraper"));
    }
    assert(texts(v@) =~= bundled_names(windows));
    v
}

/// Picks the one candidate for what the environment holds. Only this
/// candidate is tried: a place that is set and whose candidate is missing is
/// an error, and later places are not looked at.
pub fn candidate(lookup: Lookup) -> (c: Candidate)
    ensures
        c@ == chosen(lookup),
{
    let windows = lookup.windows;
    if let Some(path) = lookup.override_path {
        let below: Vec<String> = Vec::new();
        assert(texts(below@) =~= Seq::<Seq<char>>::empty());
        Candidate { place: Place::Override, base: path, below }
    } else if let Some(dir) = lookup.mock_resource_dir {
        Candidate { place: Place::MockResources, base: dir, below: bundled(windows) }
    } else if let Some(dir) = lookup.resource_dir {
        Candidate { place: Place::Resources, base: dir, below: bundled(windows) }
    } else {
        let below: Vec<String> = Vec::new();
        assert(texts(below@) =~= Seq::<Seq<char>>::empty());
        Candidate {
            place: Place::Development,
            base: String::from_str("../scraper/claude_scraper.py"),
            below,
        }
    }
}

/// The answer for a candidate: its path where it was found, else the words
/// that say where it was looked for. `path` is the candidate as one path, as
/// the caller joined it.
pub fn resolution(candidate: &Candidate, path: &str, found: bool) -> (r: Result<String, String>)
    ensures
        answer_view(r) == resolved(candidate@, path@, found),
{
    if found {
        return Ok(String::from_str(path));
    }
    let base = candidate.base.as_str();
    let message = match candidate.place {
        Place::Override => {
            let mut m = join2("CLAUDE_SCRAPER_PATH is set to '", base);
            m.append("' but the file does not exist");
            m
        },
        Place::MockResources => {
            let mut m = join2("Mocked resource_dir '", base);
            m.append("' -> candidate '");
            m.append(path);
            m.append("' does not exist");
            m
        },
        Place::Resources => {
            let mut m = join2("Tauri resource dir detected at '", base);
            m.append("' but expected bundled scraper at '");
            m.append(path);
            m.append(
                "' was not found. Ensure the scraper binary was included in the Tauri build resources.",
            );
            m
        },
        Place::Development => {
            let mut m = join2(
                "Could not locate scraper. Checked (in order): CLAUDE_SCRAPER_PATH, TAURI resource dir, and development path '",
                "../scraper/claude_scraper.py",
            );
            m.append(
                "'. For development use a local Python environment and place the script at ../scraper/claude_scraper.py, or set CLAUDE_SCRAPER_PATH to point to your python script/executable. (candidate '",
            );
            m.append(path);
            m.append("' not found)");
            m
        },
    };
    Err(message)
}

} // verus!
