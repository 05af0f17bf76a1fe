//! The decision logic of the screenshot regression harness: browser naming,
//! comparison outcomes, per-case attempt bookkeeping, failure summaries,
//! snapshot page generation, and raw screenshot header checks. The harness
//! around it drives browsers and moves files; everything here is a pure
//! function of its arguments.

use crate::strutil::{push_char, seq_contains_sub, str_contains};
use vstd::prelude::*;

verus! {

/// When the harness rebuilds the assets it serves.
#[derive(Clone, Copy, Debug, PartialEq, Eq, Structural)]
pub enum BuildMode {
    /// Build when the assets are missing.
    Auto,
    /// Always build.
    Always,
    /// Never build.
    Never,
}

/// The browser engines the harness can drive.
#[derive(Clone, Copy, Debug, PartialEq, Eq, Hash, Structural)]
pub enum BrowserKind {
    /// Chrome or Chromium.
    Chrome,
    /// Firefox.
    Firefox,
    /// Safari.
    Safari,
}

impl BrowserKind {
    /// The lowercase name used in file names.
    pub open spec fn slug_view(self) -> Seq<char> {
        match self {
            BrowserKind::Chrome => "chrome"@,
            BrowserKind::Firefox => "firefox"@,
            BrowserKind::Safari => "safari"@,
        }
    }

    /// Returns the lowercase name used in file names.
    pub fn slug(self) -> (r: &'static str)
        ensures
            r@ == self.slug_view(),
    {
        match self {
            BrowserKind::Chrome => "chrome",
            BrowserKind::Firefox => "firefox",
            BrowserKind::Safari => "safari",
        }
    }

    /// Returns the file suffix of this browser's screenshots.
    pub fn screenshot_suffix(self) -> (r: String)
        ensures
            r@ == "-"@ + self.slug_view() + ".png"@,
    {
        let mut r = String::from_str("-");
        r.append(self.slug());
        r.append(".png");
        r
    }

    /// Returns the file suffix of this browser's difference images.
    pub fn diff_suffix(self) -> (r: String)
        ensures
            r@ == "-"@ + self.slug_view() + "-diff.png"@,
    {
        let mut r = String::from_str("-");
        r.append(self.slug());
        r.append("-diff.png");
        r
    }
}

/// The pixel-difference tolerance profile applied during comparisons.
#[derive(Clone, Copy, Debug, PartialEq, Eq, Structural)]
pub enum CompareTolerance {
    /// The tightest thresholds.
    Strict,
    /// The default thresholds.
    Normal,
    /// The loosest thresholds.
    Tolerant,
}

impl CompareTolerance {
    /// Returns the profile's name.
    pub fn label(self) -> (r: &'static str)
        ensures
            r@ == match self {
                CompareTolerance::Strict => "strict"@,
                CompareTolerance::Normal => "normal"@,
                CompareTolerance::Tolerant => "tolerant"@,
            },
    {
        match self {
            CompareTolerance::Strict => "strict",
            CompareTolerance::Normal => "normal",
            CompareTolerance::Tolerant => "tolerant",
        }
    }
}

/// How far a mismatching screenshot strayed from its baseline.
#[derive(Clone, Copy, Debug, PartialEq, Eq, Structural)]
pub enum MismatchSeverity {
    /// Within the warning threshold.
    Minor,
    /// Between the warning and failure thresholds.
    Noticeable,
    /// Beyond the failure threshold.
    Major,
}

/// How one comparison against the baseline went.
#[derive(Clone, Copy, Debug, PartialEq, Eq, Structural)]
pub enum CaseStatus {
    /// The screenshot matched the baseline.
    Pass,
    /// The screenshot differed from the baseline.
    Mismatch,
    /// The case could not be rendered or compared.
    Error,
}

/// The recorded result of one case.
#[derive(Clone, Debug)]
pub struct CaseResult {
    /// How the case ended.
    pub status: CaseStatus,
    /// A human-readable account, when one was produced.
    pub message: Option<String>,
    /// How severe a mismatch was, when the case mismatched.
    pub severity: Option<MismatchSeverity>,
}

/// What one comparison produced.
#[derive(Clone, Debug)]
pub struct CompareOutcome {
    /// Whether the screenshot is accepted as equal to the baseline.
    pub equal: bool,
    /// The estimated number of differing pixels, when it was computed.
    pub diff_pixels: Option<u64>,
    /// A note for the log, when there is something to say.
    pub note: Option<String>,
    /// The severity of a mismatch, when there was one.
    pub severity: Option<MismatchSeverity>,
    /// An encoded difference image, when one was rendered.
    pub diff_image: Option<Vec<u8>>,
}

/// The captured page fragments of one rendered case.
#[derive(Clone, Debug)]
pub struct HtmlSnapshot {
    /// Which renderer produced the snapshot, when reported.
    pub implementation: Option<String>,
    /// The reported render status, when reported.
    pub status: Option<String>,
    /// The markup before the math content.
    pub pre_html: String,
    /// The math content's markup.
    pub math_html: String,
    /// The markup after the math content.
    pub post_html: String,
}

/// The attempt bookkeeping of one case.
#[derive(Clone, Debug)]
pub struct CaseState {
    /// How many attempts the case was given.
    pub total_attempts: u32,
    /// Whether an attempt has begun.
    pub started: bool,
    /// How many attempts have begun.
    pub attempts_started: u32,
    /// How many attempts remain.
    pub remaining_attempts: u32,
    /// The recorded final result, once one is in.
    pub final_result: Option<CaseResult>,
}

impl CaseState {
    /// A fresh case with the given number of attempts, none begun.
    pub fn new(total_attempts: u32) -> (r: CaseState)
        ensures
            r.total_attempts == total_attempts,
            r.started == false,
            r.attempts_started == 0,
            r.remaining_attempts == total_attempts,
            r.final_result is None,
    {
        CaseState {
            total_attempts,
            started: false,
            attempts_started: 0,
            remaining_attempts: total_attempts,
            final_result: None,
        }
    }

    /// Begins the next attempt and returns its number, counting from one.
    /// One remaining attempt is used up, if any remain.
    pub fn begin_attempt(&mut self) -> (r: u32)
        requires
            old(self).attempts_started < u32::MAX,
        ensures
            final(self).started == true,
            final(self).attempts_started == old(self).attempts_started + 1,
            final(self).remaining_attempts == (if old(self).remaining_attempts > 0 {
                old(self).remaining_attempts - 1
            } else {
                0int
            }),
            final(self).total_attempts == old(self).total_attempts,
            final(self).final_result == old(self).final_result,
            r == final(self).attempts_started,
    {
        if !self.started {
            self.started = true;
        }
        self.attempts_started = self.attempts_started + 1;
        if self.remaining_attempts > 0 {
            self.remaining_attempts = self.remaining_attempts - 1;
        }
        self.attempts_started
    }

    /// Returns how many attempts the case was given.
    pub fn total_attempts(&self) -> (r: u32)
        ensures
            r == self.total_attempts,
    {
        self.total_attempts
    }

    /// Returns how many attempts remain.
    pub fn attempts_left(&self) -> (r: u32)
        ensures
            r == self.remaining_attempts,
    {
        self.remaining_attempts
    }

    /// Returns whether a final result has been recorded.
    pub fn is_finished(&self) -> (r: bool)
        ensures
            r == (self.final_result is Some),
    {
        self.final_result.is_some()
    }

    /// Records the final result and uses up the remaining attempts.
    pub fn finalize(&mut self, result: CaseResult)
        ensures
            final(self).final_result == Some(result),
            final(self).remaining_attempts == 0,
            final(self).total_attempts == old(self).total_attempts,
            final(self).started == old(self).started,
            final(self).attempts_started == old(self).attempts_started,
    {
        self.final_result = Some(result);
        self.remaining_attempts = 0;
    }
}

/// How loudly a condition is reported.
#[derive(Clone, Copy, Debug, PartialEq, Eq, Structural)]
pub enum WarnLevel {
    /// Quiet.
    Low,
    /// Ordinary.
    Medium,
    /// Loud.
    High,
}

/// The reporting level a mismatch severity maps to.
pub open spec fn warn_level_for_mismatch_spec(severity: MismatchSeverity) -> WarnLevel {
    match severity {
        MismatchSeverity::Minor => WarnLevel::Low,
        MismatchSeverity::Noticeable => WarnLevel::Medium,
        MismatchSeverity::Major => WarnLevel::High,
    }
}

/// Maps a mismatch severity to its reporting level.
pub fn warn_level_for_mismatch(severity: MismatchSeverity) -> (r: WarnLevel)
    ensures
        r == warn_level_for_mismatch_spec(severity),
{
    match severity {
        MismatchSeverity::Minor => WarnLevel::Low,
        MismatchSeverity::Noticeable => WarnLevel::Medium,
        MismatchSeverity::Major => WarnLevel::High,
    }
}

/// The louder of two reporting levels.
pub open spec fn max_warn_level_spec(a: WarnLevel, b: WarnLevel) -> WarnLevel {
    if a == WarnLevel::High || b == WarnLevel::High {
        WarnLevel::High
    } else if a == WarnLevel::Medium || b == WarnLevel::Medium {
        WarnLevel::Medium
    } else {
        WarnLevel::Low
    }
}

/// Returns the louder of two reporting levels.
pub fn max_warn_level(a: WarnLevel, b: WarnLevel) -> (r: WarnLevel)
    ensures
        r == max_warn_level_spec(a, b),
{
    match (a, b) {
        (WarnLevel::High, _) | (_, WarnLevel::High) => WarnLevel::High,
        (WarnLevel::Medium, _) | (_, WarnLevel::Medium) => WarnLevel::Medium,
        _ => WarnLevel::Low,
    }
}

/// The reporting level one case result asks for: loud for an error, the
/// mismatch's own level — or loud when none was recorded — for a mismatch,
/// and nothing for a pass.
pub open spec fn level_for_result(result: CaseResult) -> Option<WarnLevel> {
    match result.status {
        CaseStatus::Error => Some(WarnLevel::High),
        CaseStatus::Mismatch => match result.severity {
            Some(sev) => Some(warn_level_for_mismatch_spec(sev)),
            None => Some(WarnLevel::High),
        },
        CaseStatus::Pass => None,
    }
}

/// The louder of two optional reporting levels.
pub open spec fn combine_levels(a: Option<WarnLevel>, b: Option<WarnLevel>) -> Option<WarnLevel> {
    match (a, b) {
        (Some(x), Some(y)) => Some(max_warn_level_spec(x, y)),
        (Some(x), None) => Some(x),
        (None, Some(y)) => Some(y),
        (None, None) => None,
    }
}

/// The loudest reporting level the failures from index `i` on ask for.
pub open spec fn highest_level_from(s: Seq<(String, CaseResult)>, i: int) -> Option<WarnLevel>
    decreases s.len() - i,
{
    if i < 0 || i >= s.len() {
        None
    } else {
        combine_levels(level_for_result(s[i].1), highest_level_from(s, i + 1))
    }
}

/// Reduces recorded failures to the loudest reporting level they ask for:
/// the level the summary should be announced at, or nothing when every
/// listed case passed or the list is empty.
pub fn summarize_failures(failures: &Vec<(String, CaseResult)>) -> (r: Option<WarnLevel>)
    ensures
        r == highest_level_from(failures@, 0),
{
    let n = failures.len();
    let mut highest: Option<WarnLevel> = None;
    let mut i: usize = 0;
    while i < n
        invariant
            i <= n,
            n == failures@.len(),
            combine_levels(highest, highest_level_from(failures@, i as int))
                == highest_level_from(failures@, 0),
        decreases n - i,
    {
        let level: Option<WarnLevel> = match failures[i].1.status {
            CaseStatus::Error => Some(WarnLevel::High),
            CaseStatus::Mismatch => match failures[i].1.severity {
                Some(sev) => Some(warn_level_for_mismatch(sev)),
                None => Some(WarnLevel::High),
            },
            CaseStatus::Pass => None,
        };
        let next: Option<WarnLevel> = match (highest, level) {
            (Some(current), Some(new_level)) => Some(max_warn_level(current, new_level)),
            (Some(current), None) => Some(current),
            (None, new_level) => new_level,
        };
        proof {
            assert(level == level_for_result(failures@[i as int].1));
            assert(next == combine_levels(highest, level));
        }
        highest = next;
        i = i + 1;
    }
    highest
}

/// The character a case-key character is filed under: letters, digits,
/// dashes, underscores and dots stand for themselves; everything else
/// becomes an underscore.
pub open spec fn sanitize_char(c: char) -> char {
    if ('a' <= c && c <= 'z') || ('A' <= c && c <= 'Z') || ('0' <= c && c <= '9') || c == '-'
        || c == '_' || c == '.' {
        c
    } else {
        '_'
    }
}

/// The file-name-safe form of a case key.
pub open spec fn sanitized_view(s: Seq<char>) -> Seq<char> {
    s.map(|i: int, c: char| sanitize_char(c))
}

/// Rewrites a case key into a file-name-safe form, keeping letters, digits,
/// dashes, underscores and dots and replacing everything else.
pub fn sanitized_case_key(key: &str) -> (r: String)
    ensures
        r@ == sanitized_view(key@),
{
    let len = key.unicode_len();
    let mut r = String::new();
    let mut i: usize = 0;
    while i < len
        invariant
            i <= len,
            len == key@.len(),
            r@ == sanitized_view(key@.take(i as int)),
        decreases len - i,
    {
        let c = key.get_char(i);
        let kept = (('a' <= c && c <= 'z') || ('A' <= c && c <= 'Z') || ('0' <= c && c <= '9')
            || c == '-' || c == '_' || c == '.');
        if kept {
            push_char(&mut r, c);
        } else {
            push_char(&mut r, '_');
        }
        proof {
            assert(r@ =~= sanitized_view(key@.take(i as int + 1)));
        }
        i = i + 1;
    }
    proof {
        assert(key@.take(len as int) =~= key@);
    }
    r
}

/// A snapshot page for one case: a header naming the case, the renderer
/// and the reported status, then the three captured fragments.
pub open spec fn html_document_view(
    case_key: Seq<char>,
    impl_label: Seq<char>,
    status: Seq<char>,
    pre_html: Seq<char>,
    math_html: Seq<char>,
    post_html: Seq<char>,
) -> Seq<char> {
    "<!DOCTYPE html>\n<html lang=\"en\">\n<head>\n  <meta charset=\"utf-8\" />\n  <title>"@
        + case_key + " ["@ + impl_label
        + "]</title>\n  <style>body { font-family: sans-serif; margin: 1rem; }\n  header { margin-bottom: 1rem; }\n  section { margin-bottom: 1rem; }\n  .math { padding: 1rem; border: 1px solid #ccc; }\n  </style>\n</head>\n<body>\n  <header>\n    <h1>"@
        + case_key + "</h1>\n    <p><strong>Implementation:</strong> "@ + impl_label
        + "</p>\n    <p><strong>Status:</strong> "@ + status
        + "</p>\n  </header>\n  <section>\n    <h2>Pre</h2>\n    <div id=\"pre\">"@ + pre_html
        + "</div>\n  </section>\n  <section class=\"math\">\n    <h2>Math</h2>\n    <div id=\"math\">"@
        + math_html
        + "</div>\n  </section>\n  <section>\n    <h2>Post</h2>\n    <div id=\"post\">"@
        + post_html + "</div>\n  </section>\n</body>\n</html>\n"@
}

/// Renders the snapshot page for one case, with the status shown as
/// unknown when none was reported.
pub fn build_html_document(case_key: &str, snapshot: &HtmlSnapshot, impl_label: &str) -> (r: String)
    ensures
        r@ == html_document_view(
            case_key@,
            impl_label@,
            match snapshot.status {
                Some(s) => s@,
                None => "unknown"@,
            },
            snapshot.pre_html@,
            snapshot.math_html@,
            snapshot.post_html@,
        ),
{
    let status: &str = match &snapshot.status {
        Some(s) => s.as_str(),
        None => "unknown",
    };
    let mut r = String::from_str(
        "<!DOCTYPE html>\n<html lang=\"en\">\n<head>\n  <meta charset=\"utf-8\" />\n  <title>",
    );
    r.append(case_key);
    r.append(" [");
    r.append(impl_label);
    r.append(
        "]</title>\n  <style>body { font-family: sans-serif; margin: 1rem; }\n  header { margin-bottom: 1rem; }\n  section { margin-bottom: 1rem; }\n  .math { padding: 1rem; border: 1px solid #ccc; }\n  </style>\n</head>\n<body>\n  <header>\n    <h1>",
    );
    r.append(case_key);
    r.append("</h1>\n    <p><strong>Implementation:</strong> ");
    r.append(impl_label);
    r.append("</p>\n    <p><strong>Status:</strong> ");
    r.append(status);
    r.append("</p>\n  </header>\n  <section>\n    <h2>Pre</h2>\n    <div id=\"pre\">");
    r.append(snapshot.pre_html.as_str());
    r.append(
        "</div>\n  </section>\n  <section class=\"math\">\n    <h2>Math</h2>\n    <div id=\"math\">",
    );
    r.append(snapshot.math_html.as_str());
    r.append("</div>\n  </section>\n  <section>\n    <h2>Post</h2>\n    <div id=\"post\">");
    r.append(snapshot.post_html.as_str());
    r.append("</div>\n  </section>\n</body>\n</html>\n");
    proof {
        assert(r@ =~= html_document_view(
            case_key@,
            impl_label@,
            match snapshot.status {
                Some(s) => s@,
                None => "unknown"@,
            },
            snapshot.pre_html@,
            snapshot.math_html@,
            snapshot.post_html@,
        ));
    }
    r
}

/// Why a raw screenshot was rejected before decoding.
#[derive(Clone, Copy, Debug, PartialEq, Eq, Structural)]
pub enum PngHeaderError {
    /// The data ends before the header does.
    Truncated,
    /// The data does not begin with the PNG signature.
    BadSignature,
    /// The first chunk is not the header chunk.
    MissingHeaderChunk,
}

/// The big-endian 32-bit value at offset `i`.
pub open spec fn be_u32_at(data: Seq<u8>, i: int) -> int {
    data[i] * 0x1000000 + data[i + 1] * 0x10000 + data[i + 2] * 0x100 + data[i + 3]
}

/// Whether the data begins with the PNG signature.
pub open spec fn has_png_signature(data: Seq<u8>) -> bool {
    &&& data[0] == 137u8
    &&& data[1] == 80u8
    &&& data[2] == 78u8
    &&& data[3] == 71u8
    &&& data[4] == 13u8
    &&& data[5] == 10u8
    &&& data[6] == 26u8
    &&& data[7] == 10u8
}

/// Whether the chunk tag at offset 12 names the header chunk.
pub open spec fn has_header_chunk(data: Seq<u8>) -> bool {
    &&& data[12] == 73u8
    &&& data[13] == 72u8
    &&& data[14] == 68u8
    &&& data[15] == 82u8
}

/// Reads the width and height out of a raw PNG screenshot: the data must
/// reach through the header chunk, begin with the PNG signature, and name
/// the header chunk first; the two big-endian fields after the tag are the
/// dimensions.
pub fn png_dimensions(data: &[u8]) -> (r: Result<(u32, u32), PngHeaderError>)
    ensures
        data@.len() < 24 ==> r == Err::<(u32, u32), _>(PngHeaderError::Truncated),
        data@.len() >= 24 && !has_png_signature(data@) ==> r == Err::<(u32, u32), _>(
            PngHeaderError::BadSignature,
        ),
        data@.len() >= 24 && has_png_signature(data@) && !has_header_chunk(data@) ==> r == Err::<
            (u32, u32),
            _,
        >(PngHeaderError::MissingHeaderChunk),
        data@.len() >= 24 && has_png_signature(data@) && has_header_chunk(data@) ==> (r matches Ok(
            (w, h),
        ) && w == be_u32_at(data@, 16) && h == be_u32_at(data@, 20)),
{
    if data.len() < 24 {
        return Err(PngHeaderError::Truncated);
    }
    if !(data[0] == 137 && data[1] == 80 && data[2] == 78 && data[3] == 71 && data[4] == 13
        && data[5] == 10 && data[6] == 26 && data[7] == 10) {
        return Err(PngHeaderError::BadSignature);
    }
    if !(data[12] == 73 && data[13] == 72 && data[14] == 68 && data[15] == 82) {
        return Err(PngHeaderError::MissingHeaderChunk);
    }
    let width = (data[16] as u32) * 0x1000000 + (data[17] as u32) * 0x10000 + (data[18] as u32)
        * 0x100 + (data[19] as u32);
    let height = (data[20] as u32) * 0x1000000 + (data[21] as u32) * 0x10000 + (data[22] as u32)
        * 0x100 + (data[23] as u32);
    Ok((width, height))
}

/// Whether some pattern of the list occurs in the key.
pub open spec fn any_pattern_in(key: Seq<char>, patterns: Seq<Seq<char>>) -> bool {
    exists|i: int| 0 <= i < patterns.len() && seq_contains_sub(key, #[trigger] patterns[i])
}

fn any_match(key: &str, patterns: &Vec<String>) -> (r: bool)
    ensures
        r == any_pattern_in(key@, patterns.deep_view()),
{
    let n = patterns.len();
    let mut i: usize = 0;
    while i < n
        invariant
            i <= n,
            n == patterns@.len(),
            forall|j: int|
                0 <= j < i ==> !seq_contains_sub(key@, #[trigger] patterns.deep_view()[j]),
        decreases n - i,
    {
        let hit = str_contains(key, patterns[i].as_str());
        proof {
            assert(patterns.deep_view()[i as int] == patterns@[i as int]@);
        }
        if hit {
            proof {
                assert(any_pattern_in(key@, patterns.deep_view()));
            }
            return true;
        }
        i = i + 1;
    }
    false
}

/// Decides whether a case key is kept by the dataset filters: the list of
/// wanted patterns must be empty or name the key somewhere inside it, and
/// no unwanted pattern may name it.
pub fn case_key_selected(key: &str, wanted: &Vec<String>, unwanted: &Vec<String>) -> (r: bool)
    ensures
        r == ((wanted@.len() == 0 || any_pattern_in(key@, wanted.deep_view()))
            && !any_pattern_in(key@, unwanted.deep_view())),
{
    let kept = wanted.len() == 0 || any_match(key, wanted);
    kept && !any_match(key, unwanted)
}

} // verus!
