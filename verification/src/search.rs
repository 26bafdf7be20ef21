//! The search and retrieval layer's logic: building the retrieval tool's
//! queries and argument lists, parsing its JSON output into track
//! metadata, recognizing URLs, and picking the freshly downloaded file.
//! Running the tool itself is the caller's business; everything here is a
//! function from plain values to plain values.

use vstd::prelude::*;
use vstd::string::{StrSliceExecFns, StringExecFns};
use crate::json::{
    get_json_secs_field, get_json_str_field, get_json_u64_field, json_line_ok,
    json_line_parses, json_secs_field, json_str_field, json_u64_field,
};
use crate::persist::{lemma_line_break_at, line_break, trim_spec};
use crate::text::{contains_seq, contains_str, dec_digits, u64_to_string};

verus! {

/// Metadata of one search result.  The duration is kept as whole seconds.
#[derive(Debug, Clone)]
pub struct VideoInfo {
    pub id: String,
    pub title: String,
    pub duration_secs: Option<u64>,
    pub uploader: Option<String>,
    pub view_count: Option<u64>,
}

/// Whether this text is recognized as a link to the retrieval site: a
/// watch, short-form, playlist or music address anywhere inside it.
pub open spec fn is_youtube_url_spec(u: Seq<char>) -> bool {
    ||| contains_seq(u, "youtube.com/watch"@)
    ||| contains_seq(u, "youtu.be/"@)
    ||| contains_seq(u, "youtube.com/playlist"@)
    ||| contains_seq(u, "music.youtube.com"@)
}

/// Whether this text is recognized as a link to the retrieval site.
pub fn is_youtube_url(url: &str) -> (r: bool)
    ensures
        r == is_youtube_url_spec(url@),
{
    contains_str(url, "youtube.com/watch") || contains_str(url, "youtu.be/") || contains_str(
        url,
        "youtube.com/playlist",
    ) || contains_str(url, "music.youtube.com")
}

/// The watch address of a result with this id.
pub open spec fn watch_url_spec(id: Seq<char>) -> Seq<char> {
    "https://www.youtube.com/watch?v="@ + id
}

/// Builds the watch address of a result.
pub fn watch_url(id: &str) -> (r: String)
    ensures
        r@ == watch_url_spec(id@),
{
    let mut r = "https://www.youtube.com/watch?v=".to_owned();
    r.append(id);
    r
}

/// The search request handed to the retrieval tool: the result count, then
/// the query.
pub open spec fn search_query_spec(max_results: nat, query: Seq<char>) -> Seq<char> {
    "ytsearch"@ + dec_digits(max_results) + ":"@ + query
}

/// Builds the search request for up to `max_results` results, or nothing
/// when the query is blank.
pub fn build_search_query(max_results: usize, query: &str) -> (r: Option<String>)
    ensures
        r is Some <==> trim_spec(query@).len() > 0,
        r matches Some(q) ==> q@ == search_query_spec(max_results as nat, query@),
{
    let trimmed = crate::persist::trim_str(query);
    if trimmed.as_str().unicode_len() == 0 {
        return None;
    }
    let mut q = "ytsearch".to_owned();
    let count = u64_to_string(max_results as u64);
    q.append(count.as_str());
    q.append(":");
    q.append(query);
    proof {
        assert(q@ =~= search_query_spec(max_results as nat, query@));
    }
    Some(q)
}

/// A line as the line iterator reads it: a carriage return left before
/// the break is dropped.
pub open spec fn strip_cr(l: Seq<char>) -> Seq<char> {
    if l.len() > 0 && l[l.len() - 1] == '\r' {
        l.take(l.len() - 1)
    } else {
        l
    }
}

/// The lines of the tool's output that parse as JSON documents, in order.
pub open spec fn parseable_lines(s: Seq<char>) -> Seq<Seq<char>>
    decreases s.len(),
{
    if s.len() == 0 {
        Seq::empty()
    } else {
        let b = line_break(s);
        if 0 <= b < s.len() {
            let line = strip_cr(s.take(b));
            (if json_line_ok(line) {
                seq![line]
            } else {
                Seq::empty()
            }) + parseable_lines(s.skip(b + 1))
        } else {
            let line = strip_cr(s);
            if json_line_ok(line) {
                seq![line]
            } else {
                Seq::empty()
            }
        }
    }
}

/// Whether a result line carries its two required fields, the id and the
/// title.
pub open spec fn line_has_video(line: Seq<char>) -> bool {
    json_str_field(line, "id"@) is Some && json_str_field(line, "title"@) is Some
}

/// Whether `v` is exactly the metadata this result line carries.
pub open spec fn video_matches_line(v: VideoInfo, line: Seq<char>) -> bool {
    &&& (json_str_field(line, "id"@) matches Some(id) && v.id@ == id)
    &&& (json_str_field(line, "title"@) matches Some(t) && v.title@ == t)
    &&& v.duration_secs == json_secs_field(line, "duration"@)
    &&& (match (v.uploader, json_str_field(line, "uploader"@)) {
        (Some(u), Some(s)) => u@ == s,
        (None, None) => true,
        _ => false,
    })
    &&& v.view_count == json_u64_field(line, "view_count"@)
}

/// Reads one search result out of a result line: the id and title are
/// required, the rest is optional.
fn video_from_line(line: &str) -> (r: Option<VideoInfo>)
    ensures
        r is Some <==> line_has_video(line@),
        r matches Some(v) ==> video_matches_line(v, line@),
{
    let id: String = match get_json_str_field(line, "id") {
        Some(s) => s,
        None => {
            return None;
        },
    };
    let title: String = match get_json_str_field(line, "title") {
        Some(s) => s,
        None => {
            return None;
        },
    };
    let duration_secs: Option<u64> = get_json_secs_field(line, "duration");
    let uploader: Option<String> = get_json_str_field(line, "uploader");
    let view_count: Option<u64> = get_json_u64_field(line, "view_count");
    Some(VideoInfo { id, title, duration_secs, uploader, view_count })
}

/// Parses the retrieval tool's search output: one JSON document per line.
/// Lines that are not valid JSON are skipped; a valid result line missing
/// its id or title fails the whole search, and so does an output with no
/// result at all.  A success carries exactly the metadata of each
/// parseable line, in line order.
pub fn parse_search_output(output: &str) -> (r: Option<Vec<VideoInfo>>)
    ensures
        ({
            let lines = parseable_lines(output@);
            match r {
                None => lines.len() == 0 || exists|k: int|
                    0 <= k < lines.len() && !(#[trigger] line_has_video(lines[k])),
                Some(vs) => {
                    &&& lines.len() > 0
                    &&& vs@.len() == lines.len()
                    &&& forall|k: int|
                        0 <= k < lines.len() ==> #[trigger] line_has_video(lines[k])
                    &&& forall|k: int|
                        0 <= k < lines.len() ==> video_matches_line(
                            #[trigger] vs@[k],
                            lines[k],
                        )
                },
            }
        }),
{
    let ghost whole = output@;
    let n = output.unicode_len();
    let mut videos: Vec<VideoInfo> = Vec::new();
    let ghost mut done: Seq<Seq<char>> = Seq::empty();
    let mut pos: usize = 0;
    proof {
        assert(whole.skip(0) =~= whole);
        assert(done + parseable_lines(whole) =~= parseable_lines(whole));
    }
    while pos < n
        invariant
            pos <= n,
            n == whole.len(),
            output@ == whole,
            done + parseable_lines(whole.skip(pos as int)) == parseable_lines(whole),
            videos@.len() == done.len(),
            forall|k: int| 0 <= k < done.len() ==> #[trigger] line_has_video(done[k]),
            forall|k: int|
                0 <= k < done.len() ==> video_matches_line(#[trigger] videos@[k], done[k]),
        decreases n - pos,
    {
        let ghost rem = whole.skip(pos as int);
        let mut e: usize = pos;
        while e < n && output.get_char(e) != '\n'
            invariant
                pos <= e <= n,
                n == whole.len(),
                output@ == whole,
                forall|m: int| pos <= m < e ==> whole[m] != '\n',
            decreases n - e,
        {
            e += 1;
        }
        let ghost b = e - pos as int;
        proof {
            assert forall|m: int| 0 <= m < b implies rem[m] != '\n' by {
                assert(rem[m] == whole[pos + m]);
            }
            if e < n {
                assert(rem[b] == whole[e as int]);
            }
            lemma_line_break_at(rem, b);
            assert(rem.take(b) =~= whole.subrange(pos as int, e as int));
        }
        let line_end = if e > pos && output.get_char(e - 1) == '\r' {
            e - 1
        } else {
            e
        };
        let line = output.substring_char(pos, line_end);
        proof {
            let raw = rem.take(b);
            if e > pos && whole[e - 1] == '\r' {
                assert(raw[raw.len() - 1] == whole[e - 1]);
                assert(raw.take(raw.len() - 1) =~= whole.subrange(pos as int, e - 1));
                assert(line@ =~= strip_cr(raw));
            } else {
                assert(line@ =~= strip_cr(raw));
            }
        }
        if json_line_parses(line) {
            proof {
                if b < rem.len() {
                    assert(parseable_lines(rem) == seq![line@] + parseable_lines(
                        rem.skip(b + 1),
                    ));
                } else {
                    assert(rem.take(b) =~= rem);
                    assert(parseable_lines(rem) == seq![line@]);
                }
                assert(parseable_lines(whole)[done.len() as int] == line@);
            }
            match video_from_line(line) {
                Some(info) => {
                    videos.push(info);
                    proof {
                        done = done.push(line@);
                    }
                },
                None => {
                    // A result line without its required fields fails the
                    // whole search.
                    return None;
                },
            }
        }
        proof {
            if b < rem.len() {
                assert(rem.skip(b + 1) =~= whole.skip(e + 1));
                if json_line_ok(line@) {
                    assert(done + parseable_lines(whole.skip(e + 1)) =~= parseable_lines(
                        whole,
                    ));
                } else {
                    assert(parseable_lines(rem) == parseable_lines(rem.skip(b + 1)));
                    assert(done + parseable_lines(whole.skip(e + 1)) =~= parseable_lines(
                        whole,
                    ));
                }
            } else {
                assert(rem.take(b) =~= rem);
                assert(whole.skip(n as int) =~= Seq::<char>::empty());
                assert(done + parseable_lines(whole.skip(n as int)) =~= parseable_lines(
                    whole,
                ));
            }
        }
        if e < n {
            pos = e + 1;
        } else {
            pos = n;
        }
    }
    proof {
        assert(whole.skip(n as int) =~= Seq::<char>::empty());
        assert(done =~= parseable_lines(whole));
    }
    if videos.len() == 0 {
        None
    } else {
        Some(videos)
    }
}

/// Picks the first search result out of the retrieval tool's output and
/// pairs its watch address — a recognizable link — with its title.
pub fn search_first_video(output: &str) -> (r: Option<(String, String)>)
    ensures
        ({
            let lines = parseable_lines(output@);
            match r {
                None => lines.len() == 0 || exists|k: int|
                    0 <= k < lines.len() && !(#[trigger] line_has_video(lines[k])),
                Some(p) => {
                    &&& lines.len() > 0
                    &&& forall|k: int|
                        0 <= k < lines.len() ==> #[trigger] line_has_video(lines[k])
                    &&& p.0@ == watch_url_spec(json_str_field(lines[0], "id"@)->0)
                    &&& p.1@ == json_str_field(lines[0], "title"@)->0
                    &&& is_youtube_url_spec(p.0@)
                },
            }
        }),
{
    match parse_search_output(output) {
        Some(videos) => {
            let first = &videos[0];
            let url = watch_url(first.id.as_str());
            proof {
                reveal_strlit("https://www.youtube.com/watch?v=");
                reveal_strlit("youtube.com/watch");
                assert(url@.subrange(12, 12 + "youtube.com/watch"@.len() as int)
                    =~= "youtube.com/watch"@);
                assert(contains_seq(url@, "youtube.com/watch"@));
            }
            Some((url, first.title.clone()))
        },
        None => None,
    }
}

/// The blank-input failure texts of a download request.
pub open spec fn empty_link_text() -> Seq<char> {
    "URL vide fournie"@
}

/// The blank-directory failure text of a download request.
pub open spec fn empty_dir_text() -> Seq<char> {
    "Répertoire de sortie vide"@
}

/// Checks a download request's inputs: the link, then the output
/// directory, must not be blank.
pub fn validate_download_request(link: &str, output_dir: &str) -> (r: Result<(), String>)
    ensures
        r is Ok <==> (trim_spec(link@).len() > 0 && trim_spec(output_dir@).len() > 0),
        trim_spec(link@).len() == 0 ==> (r matches Err(m) && m@ == empty_link_text()),
        trim_spec(link@).len() > 0 && trim_spec(output_dir@).len() == 0 ==> (r matches Err(m)
            && m@ == empty_dir_text()),
{
    let link_trimmed = crate::persist::trim_str(link);
    if link_trimmed.as_str().unicode_len() == 0 {
        return Err("URL vide fournie".to_owned());
    }
    let dir_trimmed = crate::persist::trim_str(output_dir);
    if dir_trimmed.as_str().unicode_len() == 0 {
        return Err("Répertoire de sortie vide".to_owned());
    }
    Ok(())
}

/// The output template the retrieval tool writes downloaded audio under.
pub open spec fn output_template_spec(dir: Seq<char>) -> Seq<char> {
    dir + "/%(title).100s.%(ext)s"@
}

/// Builds the output template for downloads into this directory.
pub fn download_output_template(output_dir: &str) -> (r: String)
    ensures
        r@ == output_template_spec(output_dir@),
{
    let mut r = output_dir.to_owned();
    r.append("/%(title).100s.%(ext)s");
    r
}

/// The fixed argument list of an audio download: extract audio as mp3 at
/// best quality into the directory's template, quietly and with restricted
/// file names; with line-by-line progress when asked; the link last.
pub open spec fn download_args_spec(dir: Seq<char>, link: Seq<char>, progress: bool) -> Seq<
    Seq<char>,
> {
    let base = seq![
        "-x"@,
        "--audio-format"@,
        "mp3"@,
        "--audio-quality"@,
        "0"@,
        "-o"@,
        output_template_spec(dir),
        "--no-warnings"@,
        "--restrict-filenames"@,
    ];
    (if progress {
        base + seq!["--newline"@]
    } else {
        base
    }) + seq![link]
}

/// Builds the argument list the retrieval tool downloads with.
pub fn download_command_args(output_dir: &str, link: &str, progress: bool) -> (r: Vec<
    String,
>)
    ensures
        r@.map_values(|s: String| s@) == download_args_spec(output_dir@, link@, progress),
{
    let mut r: Vec<String> = Vec::new();
    r.push("-x".to_owned());
    r.push("--audio-format".to_owned());
    r.push("mp3".to_owned());
    r.push("--audio-quality".to_owned());
    r.push("0".to_owned());
    r.push("-o".to_owned());
    r.push(download_output_template(output_dir));
    r.push("--no-warnings".to_owned());
    r.push("--restrict-filenames".to_owned());
    if progress {
        r.push("--newline".to_owned());
    }
    r.push(link.to_owned());
    proof {
        assert(r@.map_values(|s: String| s@) =~= download_args_spec(
            output_dir@,
            link@,
            progress,
        ));
    }
    r
}

/// Whether `i` is the position of the first `"] "` marker in `s`.
pub open spec fn is_first_marker(s: Seq<char>, i: int) -> bool {
    &&& 0 <= i && i + 2 <= s.len()
    &&& s[i] == ']' && s[i + 1] == ' '
    &&& forall|j: int| 0 <= j < i ==> !((#[trigger] s[j]) == ']' && s[j + 1] == ' ')
}

/// Whether `i` is the position of the first `c` in `s`.
pub open spec fn is_first_char_at(s: Seq<char>, c: char, i: int) -> bool {
    &&& 0 <= i < s.len() && s[i] == c
    &&& forall|j: int| 0 <= j < i ==> s[j] != c
}

/// Whether `i` is the position of the last `c` in `s`.
pub open spec fn is_last_char_at(s: Seq<char>, c: char, i: int) -> bool {
    &&& 0 <= i < s.len() && s[i] == c
    &&& forall|j: int| i < j < s.len() ==> s[j] != c
}

/// The position of the first `"] "` marker in the line, if any.
fn find_marker(line: &str) -> (r: Option<usize>)
    ensures
        match r {
            Some(i) => is_first_marker(line@, i as int),
            None => !(exists|i: int| is_first_marker(line@, i)),
        },
{
    let n = line.unicode_len();
    if n < 2 {
        proof {
            if exists|i: int| is_first_marker(line@, i) {
                let w = choose|i: int| is_first_marker(line@, i);
                assert(w + 2 <= line@.len());
            }
        }
        return None;
    }
    let mut i: usize = 0;
    while i <= n - 2
        invariant
            2 <= n,
            n == line@.len(),
            i <= n - 1,
            forall|j: int| 0 <= j < i ==> !((#[trigger] line@[j]) == ']' && line@[j + 1] == ' '),
        decreases n - i,
    {
        if line.get_char(i) == ']' && line.get_char(i + 1) == ' ' {
            return Some(i);
        }
        i += 1;
    }
    proof {
        if exists|w: int| is_first_marker(line@, w) {
            let w = choose|w: int| is_first_marker(line@, w);
            assert(!(line@[w] == ']' && line@[w + 1] == ' '));
        }
    }
    None
}

/// The position of the first `c` at or after `from`, if any.
fn find_first_char_from(line: &str, from: usize, c: char) -> (r: Option<usize>)
    requires
        from <= line@.len(),
    ensures
        match r {
            Some(j) => {
                &&& from <= j < line@.len()
                &&& line@[j as int] == c
                &&& forall|m: int| from <= m < j ==> line@[m] != c
            },
            None => forall|m: int| from <= m < line@.len() ==> line@[m] != c,
        },
{
    let n = line.unicode_len();
    let mut j: usize = from;
    while j < n
        invariant
            from <= j <= n,
            n == line@.len(),
            forall|m: int| from <= m < j ==> line@[m] != c,
        decreases n - j,
    {
        if line.get_char(j) == c {
            return Some(j);
        }
        j += 1;
    }
    None
}

/// The position of the last `c` inside `[from, to)`, if any.
fn find_last_char_in(line: &str, from: usize, to: usize, c: char) -> (r: Option<usize>)
    requires
        from <= to <= line@.len(),
    ensures
        match r {
            Some(k) => {
                &&& from <= k < to
                &&& line@[k as int] == c
                &&& forall|m: int| k < m < to ==> line@[m] != c
            },
            None => forall|m: int| from <= m < to ==> line@[m] != c,
        },
{
    let mut k: usize = to;
    while k > from
        invariant
            from <= k <= to <= line@.len(),
            forall|m: int| k <= m < to ==> line@[m] != c,
        decreases k,
    {
        if line.get_char(k - 1) == c {
            return Some(k - 1);
        }
        k -= 1;
    }
    None
}

/// Reads the percentage figure out of one progress line of the retrieval
/// tool: the text between the first `"] "` marker's last following space
/// and the first percent sign after the marker.  Nothing when the line has
/// no marker or no percent sign after it.
pub fn extract_percentage(line: &str) -> (r: Option<String>)
    ensures
        !(exists|i: int| is_first_marker(line@, i)) ==> r is None,
        forall|i: int| #[trigger] is_first_marker(line@, i) ==> {
            let after = line@.skip(i + 2);
            &&& (!(exists|p: int| is_first_char_at(after, '%', p)) ==> r is None)
            &&& forall|p: int| #[trigger] is_first_char_at(after, '%', p) ==> {
                let before = after.take(p);
                &&& (forall|k: int| #[trigger] is_last_char_at(before, ' ', k) ==> (
                r matches Some(v) && v@ == before.skip(k + 1)))
                &&& (!(exists|k: int| is_last_char_at(before, ' ', k)) ==> (r matches Some(v)
                    && v@ == before))
            }
        },
{
    let n = line.unicode_len();
    let marker = match find_marker(line) {
        None => {
            return None;
        },
        Some(i) => i,
    };
    let ghost gi = marker as int;
    proof {
        assert forall|i2: int| #[trigger] is_first_marker(line@, i2) implies i2 == gi by {
            if i2 < gi {
                assert(!(line@[i2] == ']' && line@[i2 + 1] == ' '));
            } else if i2 > gi {
                assert(!(line@[gi] == ']' && line@[gi + 1] == ' '));
            }
        }
    }
    let ghost after = line@.skip(gi + 2);
    let start = marker + 2;
    let pct = match find_first_char_from(line, start, '%') {
        None => {
            proof {
                assert forall|p: int| !(#[trigger] is_first_char_at(after, '%', p)) by {
                    if is_first_char_at(after, '%', p) {
                        assert(after[p] == line@[gi + 2 + p]);
                    }
                }
            }
            return None;
        },
        Some(j) => j,
    };
    let ghost gp = pct - (gi + 2);
    proof {
        assert(after[gp] == line@[pct as int] == '%');
        assert forall|m: int| 0 <= m < gp implies after[m] != '%' by {
            assert(after[m] == line@[gi + 2 + m]);
        }
        assert(is_first_char_at(after, '%', gp));
        assert forall|p2: int| #[trigger] is_first_char_at(after, '%', p2) implies p2 == gp by {
            if p2 < gp {
                assert(after[p2] != '%');
            } else if p2 > gp {
                assert(after[gp] != '%');
            }
        }
    }
    let ghost before = after.take(gp);
    proof {
        assert(before =~= line@.subrange(gi + 2, pct as int));
    }
    match find_last_char_in(line, start, pct, ' ') {
        Some(k) => {
            let v = line.substring_char(k + 1, pct);
            let ghost gk = k - (gi + 2);
            proof {
                assert(before[gk] == line@[k as int] == ' ');
                assert forall|m: int| gk < m < before.len() implies before[m] != ' ' by {
                    assert(before[m] == line@[gi + 2 + m]);
                }
                assert(is_last_char_at(before, ' ', gk));
                assert forall|k2: int| #[trigger] is_last_char_at(before, ' ', k2) implies k2
                    == gk by {
                    if k2 < gk {
                        assert(before[k2] != ' ');
                    } else if k2 > gk {
                        assert(before[gk] != ' ');
                    }
                }
                assert(v@ =~= before.skip(gk + 1));
            }
            Some(v.to_owned())
        },
        None => {
            let v = line.substring_char(start, pct);
            proof {
                assert forall|k2: int| !(#[trigger] is_last_char_at(before, ' ', k2)) by {
                    if is_last_char_at(before, ' ', k2) {
                        assert(before[k2] == line@[gi + 2 + k2]);
                    }
                }
                assert(v@ =~= before);
            }
            Some(v.to_owned())
        },
    }
}

/// Picks the freshly downloaded audio file out of a directory listing of
/// `(path, modification time)` pairs: nothing unless the listing grew past
/// the count taken before the download; otherwise the position of the
/// newest entry, ties resolved towards the listing's end.
pub fn select_newest_mp3(files: &Vec<(String, u64)>, files_before: usize) -> (r: Option<
    usize,
>)
    ensures
        files@.len() <= files_before ==> r is None,
        files@.len() > files_before ==> (r matches Some(i) && i < files@.len() && (forall|
            j: int,
        |
            0 <= j < files@.len() ==> files@[j].1 <= files@[i as int].1) && (forall|j: int|
            i < j < files@.len() ==> files@[j].1 < files@[i as int].1)),
{
    if files.len() <= files_before {
        return None;
    }
    let mut best: usize = 0;
    let mut j: usize = 1;
    while j < files.len()
        invariant
            best < j <= files@.len(),
            forall|m: int| 0 <= m < j ==> files@[m].1 <= files@[best as int].1,
            forall|m: int| best < m < j ==> files@[m].1 < files@[best as int].1,
        decreases files@.len() - j,
    {
        if files[j].1 >= files[best].1 {
            best = j;
        }
        j += 1;
    }
    Some(best)
}

} // verus!
