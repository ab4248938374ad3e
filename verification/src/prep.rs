use vstd::prelude::*;
use vstd::string::{StrSliceExecFns, StringExecFns};
use crate::fmt::{format_ms_as_seconds, spec_ms_as_seconds};

verus! {

/// A request to turn a set of recordings into one audio file for a session.
pub struct ProcessAudioRequest {
    pub file_paths: Vec<String>,
    pub output_filename: String,
    pub session_id: String,
}

/// Byte `b` lower-cased if it is an ASCII capital letter.
pub open spec fn ascii_lower(b: u8) -> u8 {
    if 65 <= b && b <= 90 {
        (b + 32) as u8
    } else {
        b
    }
}

/// Last index below `upto` holding a path separator (`/` or `\`).
pub open spec fn last_separator_before(s: Seq<u8>, upto: int) -> Option<int>
    decreases upto,
{
    if upto <= 0 {
        None
    } else if s[upto - 1] == 47 || s[upto - 1] == 92 {
        Some(upto - 1)
    } else {
        last_separator_before(s, upto - 1)
    }
}

/// Last index below `upto` holding a dot.
pub open spec fn last_dot_before(s: Seq<u8>, upto: int) -> Option<int>
    decreases upto,
{
    if upto <= 0 {
        None
    } else if s[upto - 1] == 46 {
        Some(upto - 1)
    } else {
        last_dot_before(s, upto - 1)
    }
}

/// The bytes of `s` in `[lo, hi)`, lower-cased, spell one of the recognized
/// video container extensions.
pub open spec fn is_video_extension(s: Seq<u8>, lo: int, hi: int) -> bool {
    ||| (hi - lo == 3 && ascii_lower(s[lo]) == 109 && ascii_lower(s[lo + 1]) == 112 && ascii_lower(
        s[lo + 2],
    ) == 52)  // mp4
    ||| (hi - lo == 3 && ascii_lower(s[lo]) == 109 && ascii_lower(s[lo + 1]) == 111 && ascii_lower(
        s[lo + 2],
    ) == 118)  // mov
    ||| (hi - lo == 3 && ascii_lower(s[lo]) == 97 && ascii_lower(s[lo + 1]) == 118 && ascii_lower(
        s[lo + 2],
    ) == 105)  // avi
    ||| (hi - lo == 3 && ascii_lower(s[lo]) == 109 && ascii_lower(s[lo + 1]) == 107 && ascii_lower(
        s[lo + 2],
    ) == 118)  // mkv
    ||| (hi - lo == 4 && ascii_lower(s[lo]) == 119 && ascii_lower(s[lo + 1]) == 101 && ascii_lower(
        s[lo + 2],
    ) == 98 && ascii_lower(s[lo + 3]) == 109)  // webm
    ||| (hi - lo == 3 && ascii_lower(s[lo]) == 109 && ascii_lower(s[lo + 1]) == 52 && ascii_lower(
        s[lo + 2],
    ) == 118)  // m4v
    ||| (hi - lo == 3 && ascii_lower(s[lo]) == 102 && ascii_lower(s[lo + 1]) == 108 && ascii_lower(
        s[lo + 2],
    ) == 118)  // flv
    ||| (hi - lo == 3 && ascii_lower(s[lo]) == 119 && ascii_lower(s[lo + 1]) == 109 && ascii_lower(
        s[lo + 2],
    ) == 118)  // wmv
}

/// Whether the path names a video file: its final component has an extension
/// (a last dot that is not the component's first byte) that spells one of
/// the recognized video containers, case-insensitively.
pub open spec fn spec_is_video_file(path: Seq<u8>) -> bool {
    let name_start = match last_separator_before(path, path.len() as int) {
        Some(k) => k + 1,
        None => 0,
    };
    match last_dot_before(path, path.len() as int) {
        None => false,
        Some(d) => d > name_start && is_video_extension(path, d + 1, path.len() as int),
    }
}

fn find_last_separator(s: &[u8]) -> (r: Option<usize>)
    ensures
        match r {
            Some(k) => last_separator_before(s@, s@.len() as int) == Some(k as int) && k
                < s@.len(),
            None => last_separator_before(s@, s@.len() as int) is None,
        },
{
    let mut i = s.len();
    while i > 0
        invariant
            i <= s@.len(),
            last_separator_before(s@, s@.len() as int) == last_separator_before(s@, i as int),
        decreases i,
    {
        if s[i - 1] == 47 || s[i - 1] == 92 {
            return Some(i - 1);
        }
        i = i - 1;
    }
    None
}

fn find_last_dot(s: &[u8]) -> (r: Option<usize>)
    ensures
        match r {
            Some(k) => last_dot_before(s@, s@.len() as int) == Some(k as int) && k < s@.len(),
            None => last_dot_before(s@, s@.len() as int) is None,
        },
{
    let mut i = s.len();
    while i > 0
        invariant
            i <= s@.len(),
            last_dot_before(s@, s@.len() as int) == last_dot_before(s@, i as int),
        decreases i,
    {
        if s[i - 1] == 46 {
            return Some(i - 1);
        }
        i = i - 1;
    }
    None
}

fn to_lower(b: u8) -> (r: u8)
    ensures
        r == ascii_lower(b),
{
    if 65 <= b && b <= 90 {
        b + 32
    } else {
        b
    }
}

/// Whether the path names a video file that must be converted to audio
/// before concatenation, judged by its extension, case-insensitively.
pub fn is_video_file(path: &[u8]) -> (r: bool)
    ensures
        r == spec_is_video_file(path@),
{
    let n = path.len();
    let name_start = match find_last_separator(path) {
        Some(k) => k + 1,
        None => 0,
    };
    let d = match find_last_dot(path) {
        Some(d) => d,
        None => {
            return false;
        },
    };
    if d <= name_start {
        return false;
    }
    let lo = d + 1;
    if n - lo == 3 {
        let a = to_lower(path[lo]);
        let b = to_lower(path[lo + 1]);
        let c = to_lower(path[lo + 2]);
        (a == 109 && b == 112 && c == 52) || (a == 109 && b == 111 && c == 118) || (a == 97 && b
            == 118 && c == 105) || (a == 109 && b == 107 && c == 118) || (a == 109 && b == 52 && c
            == 118) || (a == 102 && b == 108 && c == 118) || (a == 119 && b == 109 && c == 118)
    } else if n - lo == 4 {
        let a = to_lower(path[lo]);
        let b = to_lower(path[lo + 1]);
        let c = to_lower(path[lo + 2]);
        let e = to_lower(path[lo + 3]);
        a == 119 && b == 101 && c == 98 && e == 109
    } else {
        false
    }
}

/// One path character as it is written into the concat list: directory
/// separators normalized to `/`, single quotes shell-escaped.
pub open spec fn spec_escape_char(c: char) -> Seq<char> {
    if c == '\\' {
        seq!['/']
    } else if c == '\'' {
        seq!['\'', '\\', '\'', '\'']
    } else {
        seq![c]
    }
}

/// A path as it is written into the concat list.
pub open spec fn spec_escape_path(s: Seq<char>) -> Seq<char>
    decreases s.len(),
{
    if s.len() == 0 {
        Seq::empty()
    } else {
        spec_escape_path(s.drop_last()) + spec_escape_char(s.last())
    }
}

/// Escapes one input path for the media tool's concat list: backslashes
/// become forward slashes and single quotes are closed, escaped and
/// reopened.
pub fn escape_concat_path(p: &str) -> (r: String)
    ensures
        r@ == spec_escape_path(p@),
{
    let n = p.unicode_len();
    let mut r = String::new();
    let mut i: usize = 0;
    while i < n
        invariant
            i <= n == p@.len(),
            r@ == spec_escape_path(p@.subrange(0, i as int)),
        decreases n - i,
    {
        proof {
            assert(p@.subrange(0, i + 1).drop_last() =~= p@.subrange(0, i as int));
            assert(p@.subrange(0, i + 1).last() == p@[i as int]);
        }
        let c = p.get_char(i);
        if c == '\\' {
            r.append("/");
            proof {
                reveal_strlit("/");
                assert("/"@ =~= seq!['/']);
            }
        } else if c == '\'' {
            r.append("'\\''");
            proof {
                reveal_strlit("'\\''");
                assert("'\\''"@ =~= seq!['\'', '\\', '\'', '\'']);
            }
        } else {
            let piece = p.substring_char(i, i + 1);
            r.append(piece);
            proof {
                assert(piece@ =~= seq![p@[i as int]]);
            }
        }
        i = i + 1;
    }
    proof {
        assert(p@.subrange(0, p@.len() as int) =~= p@);
    }
    r
}

/// The full text of the media tool's concat list: one `file '...'` line per
/// input path, in order, each path escaped.
pub open spec fn spec_concat_list(paths: Seq<Seq<char>>) -> Seq<char>
    decreases paths.len(),
{
    if paths.len() == 0 {
        Seq::empty()
    } else {
        spec_concat_list(paths.drop_last()) + "file '"@ + spec_escape_path(paths.last()) + "'\n"@
    }
}

/// Builds the concat list handed to the media tool when several audio files
/// are joined into one.
pub fn concat_list_content(paths: &Vec<String>) -> (r: String)
    ensures
        r@ == spec_concat_list(paths.deep_view()),
{
    let ghost dv = paths.deep_view();
    let mut r = String::new();
    let mut i: usize = 0;
    while i < paths.len()
        invariant
            i <= paths.len(),
            dv == paths.deep_view(),
            dv.len() == paths.len(),
            forall|k: int| 0 <= k < dv.len() ==> #[trigger] dv[k] == paths@[k]@,
            r@ == spec_concat_list(dv.subrange(0, i as int)),
        decreases paths.len() - i,
    {
        proof {
            assert(dv.subrange(0, i + 1).drop_last() =~= dv.subrange(0, i as int));
            assert(dv.subrange(0, i + 1).last() == dv[i as int]);
        }
        r.append("file '");
        let escaped = escape_concat_path(paths[i].as_str());
        r.append(escaped.as_str());
        r.append("'\n");
        i = i + 1;
    }
    proof {
        assert(dv.subrange(0, dv.len() as int) =~= dv);
    }
    r
}

/// The media tool's argument list for converting one video file to a
/// PCM stereo audio file, overwriting the output.
pub fn convert_video_args(input: &str, output: &str) -> (r: Vec<String>)
    ensures
        r.deep_view() == seq![
            "-i"@,
            input@,
            "-vn"@,
            "-acodec"@,
            "pcm_s16le"@,
            "-ar"@,
            "44100"@,
            "-ac"@,
            "2"@,
            "-y"@,
            output@,
        ],
{
    let mut v: Vec<String> = Vec::new();
    v.push(String::from_str("-i"));
    v.push(String::from_str(input));
    v.push(String::from_str("-vn"));
    v.push(String::from_str("-acodec"));
    v.push(String::from_str("pcm_s16le"));
    v.push(String::from_str("-ar"));
    v.push(String::from_str("44100"));
    v.push(String::from_str("-ac"));
    v.push(String::from_str("2"));
    v.push(String::from_str("-y"));
    v.push(String::from_str(output));
    proof {
        assert(v.deep_view() =~= seq![
            "-i"@,
            input@,
            "-vn"@,
            "-acodec"@,
            "pcm_s16le"@,
            "-ar"@,
            "44100"@,
            "-ac"@,
            "2"@,
            "-y"@,
            output@,
        ]);
    }
    v
}

/// The media tool's argument list for concatenating the files named in a
/// concat list into one output, stream-copied, overwriting the output.
pub fn concat_args(concat_list_path: &str, output: &str) -> (r: Vec<String>)
    ensures
        r.deep_view() == seq![
            "-f"@,
            "concat"@,
            "-safe"@,
            "0"@,
            "-i"@,
            concat_list_path@,
            "-c"@,
            "copy"@,
            "-y"@,
            output@,
        ],
{
    let mut v: Vec<String> = Vec::new();
    v.push(String::from_str("-f"));
    v.push(String::from_str("concat"));
    v.push(String::from_str("-safe"));
    v.push(String::from_str("0"));
    v.push(String::from_str("-i"));
    v.push(String::from_str(concat_list_path));
    v.push(String::from_str("-c"));
    v.push(String::from_str("copy"));
    v.push(String::from_str("-y"));
    v.push(String::from_str(output));
    proof {
        assert(v.deep_view() =~= seq![
            "-f"@,
            "concat"@,
            "-safe"@,
            "0"@,
            "-i"@,
            concat_list_path@,
            "-c"@,
            "copy"@,
            "-y"@,
            output@,
        ]);
    }
    v
}

/// The media tool's argument list for probing a file's duration: read one
/// second, discard the decoded output to the given null sink, and let the
/// header with the `Duration:` token appear on the diagnostic stream.
pub fn probe_args(input: &str, null_sink: &str) -> (r: Vec<String>)
    ensures
        r.deep_view() == seq!["-i"@, input@, "-t"@, "1"@, "-f"@, "null"@, null_sink@],
{
    let mut v: Vec<String> = Vec::new();
    v.push(String::from_str("-i"));
    v.push(String::from_str(input));
    v.push(String::from_str("-t"));
    v.push(String::from_str("1"));
    v.push(String::from_str("-f"));
    v.push(String::from_str("null"));
    v.push(String::from_str(null_sink));
    proof {
        assert(v.deep_view() =~= seq!["-i"@, input@, "-t"@, "1"@, "-f"@, "null"@, null_sink@]);
    }
    v
}

/// The media tool's argument list for carving one chunk: seek to the start
/// offset, limit the output duration, stream-copy the audio, avoid negative
/// timestamps so seeking adds no leading offset, and overwrite the output.
/// Offsets are rendered as seconds with three fractional digits.
pub fn extract_args(input: &str, output: &str, start_ms: u64, duration_ms: u64) -> (r: Vec<String>)
    ensures
        r.deep_view() == seq![
            "-i"@,
            input@,
            "-ss"@,
            spec_ms_as_seconds(start_ms as nat),
            "-t"@,
            spec_ms_as_seconds(duration_ms as nat),
            "-acodec"@,
            "copy"@,
            "-avoid_negative_ts"@,
            "make_zero"@,
            "-y"@,
            output@,
        ],
{
    let mut v: Vec<String> = Vec::new();
    v.push(String::from_str("-i"));
    v.push(String::from_str(input));
    v.push(String::from_str("-ss"));
    v.push(format_ms_as_seconds(start_ms));
    v.push(String::from_str("-t"));
    v.push(format_ms_as_seconds(duration_ms));
    v.push(String::from_str("-acodec"));
    v.push(String::from_str("copy"));
    v.push(String::from_str("-avoid_negative_ts"));
    v.push(String::from_str("make_zero"));
    v.push(String::from_str("-y"));
    v.push(String::from_str(output));
    proof {
        assert(v.deep_view() =~= seq![
            "-i"@,
            input@,
            "-ss"@,
            spec_ms_as_seconds(start_ms as nat),
            "-t"@,
            spec_ms_as_seconds(duration_ms as nat),
            "-acodec"@,
            "copy"@,
            "-avoid_negative_ts"@,
            "make_zero"@,
            "-y"@,
            output@,
        ]);
    }
    v
}

/// The candidate locations of the bundled media tool under a resource
/// directory: directly under `binaries`, then under the platform
/// subdirectory.
pub fn ffmpeg_candidate_paths(resource_dir: &str, platform_subdir: &str, exe_name: &str) -> (r: Vec<
    String,
>)
    ensures
        r.deep_view() == seq![
            resource_dir@ + "/binaries/"@ + exe_name@,
            resource_dir@ + "/binaries/"@ + platform_subdir@ + "/"@ + exe_name@,
        ],
{
    let mut first = String::from_str(resource_dir);
    first.append("/binaries/");
    let mut second = first.clone();
    first.append(exe_name);
    second.append(platform_subdir);
    second.append("/");
    second.append(exe_name);
    let mut v: Vec<String> = Vec::new();
    v.push(first);
    v.push(second);
    proof {
        assert(v.deep_view() =~= seq![
            resource_dir@ + "/binaries/"@ + exe_name@,
            resource_dir@ + "/binaries/"@ + platform_subdir@ + "/"@ + exe_name@,
        ]);
    }
    v
}

} // verus!
