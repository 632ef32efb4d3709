use vstd::prelude::*;
use vstd::string::*;
use crate::error::HtMcpError;

verus! {

/// The public address a quick tunnel announces in its diagnostic output.
pub const URL_PATTERN: &'static str = "https://[a-zA-Z0-9-]+\\.trycloudflare\\.com";

/// How many diagnostic lines are read at most while looking for the address.
pub const MAX_SCANNED_LINES: u32 = 100;

/// What compiling `pattern` and searching `haystack` with it gives, as the
/// regex crate does it: the text of the leftmost-first match, if any, or the
/// compiler's message for a pattern that does not compile.
pub uninterp spec fn regex_search(pattern: Seq<char>, haystack: Seq<char>) -> Result<Option<Seq<char>>, Seq<char>>;

pub open spec fn is_substring(m: Seq<char>, s: Seq<char>) -> bool {
    exists|i: int| 0 <= i && i + m.len() <= s.len() && #[trigger] s.subrange(i, i + m.len()) == m
}

pub open spec fn found_view(found: Result<Option<String>, String>) -> Result<Option<Seq<char>>, Seq<char>> {
    match found {
        Ok(Some(u)) => Ok(Some(u@)),
        Ok(None) => Ok(None),
        Err(d) => Err(d@),
    }
}

/// Relies on regex::Regex::new and regex::Regex::find: compiles `pattern` and
/// returns the text of the first match in `haystack`, which is a part of it.
/// A pattern that does not compile gives the compiler's message. Both calls sit
/// in one wrapper so that the result can be named by the pattern's text.
#[verifier::external_body]
fn find_first(pattern: &str, haystack: &str) -> (r: Result<Option<String>, String>)
    ensures
        found_view(r) == regex_search(pattern@, haystack@),
        r matches Ok(Some(m)) ==> is_substring(m@, haystack@),
{
    match regex::Regex::new(pattern) {
        Ok(re) => Ok(re.find(haystack).map(|m| m.as_str().to_string())),
        Err(e) => Err(e.to_string()),
    }
}

/// What one step of the address scan decided.
#[derive(Debug)]
pub enum ScanStep {
    /// Keep reading lines.
    Continue,
    /// The address was found.
    Found(String),
    /// The scan failed; the tunnel process is left running.
    Failed(HtMcpError),
}

/// `ScanStep` as plain values.
pub enum ScanView {
    Continue,
    Found(Seq<char>),
    Failed(Seq<char>),
}

impl ScanStep {
    pub open spec fn view(&self) -> ScanView {
        match self {
            ScanStep::Continue => ScanView::Continue,
            ScanStep::Found(u) => ScanView::Found(u@),
            ScanStep::Failed(HtMcpError::Internal(m)) => ScanView::Failed(m@),
            ScanStep::Failed(HtMcpError::SessionNotFound(m)) => ScanView::Failed(m@),
        }
    }
}

pub open spec fn too_many_lines_msg() -> Seq<char> {
    "Too many attempts to find tunnel URL"@
}

pub open spec fn not_found_msg() -> Seq<char> {
    "Could not find tunnel URL in cloudflared output"@
}

pub open spec fn timeout_msg() -> Seq<char> {
    "Timeout waiting for tunnel URL after 30s"@
}

pub open spec fn bad_pattern_msg(detail: Seq<char>) -> Seq<char> {
    "Invalid regex: "@ + detail
}

pub open spec fn read_failure_msg(detail: Seq<char>) -> Seq<char> {
    "Failed to read cloudflared output: "@ + detail
}

/// What a line whose search gave `found` decides, once the line is within the cap.
pub open spec fn match_view(found: Result<Option<Seq<char>>, Seq<char>>) -> ScanView {
    match found {
        Ok(Some(u)) => ScanView::Found(u),
        Ok(None) => ScanView::Continue,
        Err(d) => ScanView::Failed(bad_pattern_msg(d)),
    }
}

/// What reading one more line decides, after `seen` lines were read before it.
pub open spec fn line_view(seen: nat, found: Result<Option<Seq<char>>, Seq<char>>) -> ScanView {
    if seen + 1 > MAX_SCANNED_LINES {
        ScanView::Failed(too_many_lines_msg())
    } else {
        match_view(found)
    }
}


/// The outcome of reading the lines whose searches gave `found`, in order,
/// after `seen` lines; `closed` says whether the stream ends after them.
pub open spec fn scan_from(seen: nat, found: Seq<Result<Option<Seq<char>>, Seq<char>>>, closed: bool) -> ScanView
    decreases found.len(),
{
    if found.len() == 0 {
        if closed { ScanView::Failed(not_found_msg()) } else { ScanView::Continue }
    } else {
        match line_view(seen, found[0]) {
            ScanView::Continue => scan_from(seen + 1, found.drop_first(), closed),
            v => v,
        }
    }
}

pub open spec fn all_compiled(found: Seq<Result<Option<Seq<char>>, Seq<char>>>) -> bool {
    forall|i: int| 0 <= i < found.len() ==> #[trigger] found[i] is Ok
}

pub open spec fn none_before(found: Seq<Result<Option<Seq<char>>, Seq<char>>>, n: int) -> bool {
    forall|j: int| 0 <= j < n ==> #[trigger] found[j] == Ok::<Option<Seq<char>>, Seq<char>>(None)
}

proof fn lemma_scan_from(seen: nat, found: Seq<Result<Option<Seq<char>>, Seq<char>>>, closed: bool)
    requires
        all_compiled(found),
        seen <= MAX_SCANNED_LINES,
    ensures
        forall|i: int| 0 <= i < found.len() && seen + i < MAX_SCANNED_LINES
            && #[trigger] found[i] is Ok && found[i]->Ok_0 is Some && none_before(found, i)
            ==> scan_from(seen, found, closed) == ScanView::Found(found[i]->Ok_0->Some_0),
        seen + found.len() <= MAX_SCANNED_LINES && closed && none_before(found, found.len() as int)
            ==> scan_from(seen, found, closed) == ScanView::Failed(not_found_msg()),
        seen + found.len() > MAX_SCANNED_LINES && none_before(found, MAX_SCANNED_LINES - seen)
            ==> scan_from(seen, found, closed) == ScanView::Failed(too_many_lines_msg()),
    decreases found.len(),
{
    if found.len() > 0 && seen < MAX_SCANNED_LINES {
        let rest = found.drop_first();
        assert(all_compiled(rest)) by {
            assert forall|k: int| 0 <= k < rest.len() implies #[trigger] rest[k] is Ok by {
                assert(rest[k] == found[k + 1]);
            }
        }
        lemma_scan_from(seen + 1, rest, closed);
        assert forall|i: int| 0 <= i < found.len() && seen + i < MAX_SCANNED_LINES
            && #[trigger] found[i] is Ok && found[i]->Ok_0 is Some && none_before(found, i)
            implies scan_from(seen, found, closed) == ScanView::Found(found[i]->Ok_0->Some_0) by {
            if i > 0 {
                assert(found[0] == Ok::<Option<Seq<char>>, Seq<char>>(None));
                assert(rest[i - 1] == found[i]);
                assert(none_before(rest, i - 1)) by {
                    assert forall|j: int| 0 <= j < i - 1 implies #[trigger] rest[j] == Ok::<Option<Seq<char>>, Seq<char>>(None) by {
                        assert(rest[j] == found[j + 1]);
                    }
                }
            }
        }
        if none_before(found, found.len() as int) {
            assert(found[0] == Ok::<Option<Seq<char>>, Seq<char>>(None));
            assert(none_before(rest, rest.len() as int)) by {
                assert forall|j: int| 0 <= j < rest.len() implies #[trigger] rest[j] == Ok::<Option<Seq<char>>, Seq<char>>(None) by {
                    assert(rest[j] == found[j + 1]);
                }
            }
        }
        if seen + found.len() > MAX_SCANNED_LINES && none_before(found, MAX_SCANNED_LINES - seen) {
            assert(found[0] == Ok::<Option<Seq<char>>, Seq<char>>(None));
            assert(none_before(rest, MAX_SCANNED_LINES - (seen + 1))) by {
                assert forall|j: int| 0 <= j < MAX_SCANNED_LINES - (seen + 1) implies #[trigger] rest[j] == Ok::<Option<Seq<char>>, Seq<char>>(None) by {
                    assert(rest[j] == found[j + 1]);
                }
            }
        }
    }
}

/// Scanning a tunnel's output, where the pattern compiles on every line: the
/// first line with a match, if it lies within the cap, gives exactly the matched
/// address; a stream that closes within the cap with no match fails with the
/// "could not find" error; a stream with no match within the cap fails on the
/// line after it with the "too many" error.
pub proof fn lemma_scan_outcome(found: Seq<Result<Option<Seq<char>>, Seq<char>>>, closed: bool)
    requires
        all_compiled(found),
    ensures
        forall|i: int| 0 <= i < found.len() && i < MAX_SCANNED_LINES
            && #[trigger] found[i] is Ok && found[i]->Ok_0 is Some && none_before(found, i)
            ==> scan_from(0, found, closed) == ScanView::Found(found[i]->Ok_0->Some_0),
        found.len() <= MAX_SCANNED_LINES && closed && none_before(found, found.len() as int)
            ==> scan_from(0, found, closed) == ScanView::Failed(not_found_msg()),
        found.len() > MAX_SCANNED_LINES && none_before(found, MAX_SCANNED_LINES as int)
            ==> scan_from(0, found, closed) == ScanView::Failed(too_many_lines_msg()),
{
    lemma_scan_from(0, found, closed);
}

/// The state of the search for a tunnel's public address in its output.
pub struct UrlScan {
    pub lines_seen: u32,
}

impl UrlScan {
    pub fn new() -> (r: UrlScan)
        ensures
            r.lines_seen == 0,
    {
        UrlScan { lines_seen: 0 }
    }

    /// Decides on a line once its search result is known.
    pub fn on_match_result(found: Result<Option<String>, String>) -> (r: ScanStep)
        ensures
            r.view() == match_view(found_view(found)),
    {
        match found {
            Ok(Some(u)) => ScanStep::Found(u),
            Ok(None) => ScanStep::Continue,
            Err(d) => {
                let m = String::from_str("Invalid regex: ");
                ScanStep::Failed(HtMcpError::Internal(m.concat(d.as_str())))
            },
        }
    }

    /// Takes the next line of the tunnel's diagnostic output.
    pub fn on_line(&mut self, line: &str) -> (r: ScanStep)
        requires
            old(self).lines_seen <= MAX_SCANNED_LINES,
        ensures
            final(self).lines_seen == old(self).lines_seen + 1,
            r.view() == line_view(old(self).lines_seen as nat, regex_search(URL_PATTERN@, line@)),
    {
        self.lines_seen = self.lines_seen + 1;
        if self.lines_seen > MAX_SCANNED_LINES {
            let r = ScanStep::Failed(HtMcpError::Internal("Too many attempts to find tunnel URL".to_string()));
            return r;
        }
        let found = find_first(URL_PATTERN, line);
        let r = UrlScan::on_match_result(found);
        r
    }

    /// The output stream ended before an address was found.
    pub fn on_close(&self) -> (r: HtMcpError)
        ensures
            r == HtMcpError::Internal(r->Internal_0) && r->Internal_0@ == not_found_msg(),
    {
        HtMcpError::Internal("Could not find tunnel URL in cloudflared output".to_string())
    }
}

/// The deadline for finding the address passed.
pub fn timeout_error() -> (r: HtMcpError)
    ensures
        r matches HtMcpError::Internal(m) && m@ == timeout_msg(),
{
    HtMcpError::Internal("Timeout waiting for tunnel URL after 30s".to_string())
}

/// Reading the output failed.
pub fn read_error(detail: &str) -> (r: HtMcpError)
    ensures
        r matches HtMcpError::Internal(m) && m@ == read_failure_msg(detail@),
{
    let m = String::from_str("Failed to read cloudflared output: ");
    HtMcpError::Internal(m.concat(detail))
}

} // verus!
