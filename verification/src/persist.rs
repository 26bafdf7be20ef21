//! The playlist persistence format: one file per playlist, one file path per
//! line, in list order.  Only the path is persisted; on reload each track's
//! title is derived from the file name (extension stripped), so titles given
//! at track creation are lost — a deliberate property of the format.

use vstd::prelude::*;
use vstd::string::{StrSliceExecFns, StringExecFns};
use crate::playlist::{Playlist, Track};

verus! {

/// The whitespace characters stripped from both ends of a stored line:
/// the Unicode white-space code points, as the standard library's trim
/// reads them.
pub open spec fn is_space_char(c: char) -> bool {
    let u = c as u32;
    ||| u == 0x20
    ||| (0x9 <= u && u <= 0xd)
    ||| u == 0x85
    ||| u == 0xa0
    ||| u == 0x1680
    ||| (0x2000 <= u && u <= 0x200a)
    ||| u == 0x2028
    ||| u == 0x2029
    ||| u == 0x202f
    ||| u == 0x205f
    ||| u == 0x3000
}

/// Tells whether a character is stripped from the ends of a stored line.
pub fn is_space(c: char) -> (r: bool)
    ensures
        r == is_space_char(c),
{
    let u = c as u32;
    u == 0x20 || (0x9 <= u && u <= 0xd) || u == 0x85 || u == 0xa0 || u == 0x1680 || (0x2000
        <= u && u <= 0x200a) || u == 0x2028 || u == 0x2029 || u == 0x202f || u == 0x205f
        || u == 0x3000
}

/// `s` without its leading whitespace.
pub open spec fn trim_left_spec(s: Seq<char>) -> Seq<char>
    decreases s.len(),
{
    if s.len() > 0 && is_space_char(s[0]) {
        trim_left_spec(s.skip(1))
    } else {
        s
    }
}

/// `s` without its trailing whitespace.
pub open spec fn trim_right_spec(s: Seq<char>) -> Seq<char>
    decreases s.len(),
{
    if s.len() > 0 && is_space_char(s[s.len() - 1]) {
        trim_right_spec(s.take(s.len() - 1))
    } else {
        s
    }
}

/// `s` without leading and trailing whitespace.
pub open spec fn trim_spec(s: Seq<char>) -> Seq<char> {
    trim_right_spec(trim_left_spec(s))
}

/// A sequence that neither starts nor ends with whitespace trims to itself.
proof fn lemma_trim_untouched(s: Seq<char>)
    requires
        s.len() > 0,
        !is_space_char(s[0]),
        !is_space_char(s[s.len() - 1]),
    ensures
        trim_spec(s) == s,
{
}

/// Copies `s` without its leading and trailing whitespace.
pub fn trim_str(s: &str) -> (r: String)
    ensures
        r@ == trim_spec(s@),
{
    let n = s.unicode_len();
    proof {
        assert(s@.skip(0) =~= s@);
    }
    let mut i: usize = 0;
    while i < n && is_space(s.get_char(i))
        invariant
            i <= n,
            n == s@.len(),
            trim_left_spec(s@) == trim_left_spec(s@.skip(i as int)),
        decreases n - i,
    {
        proof {
            assert(s@.skip(i as int).skip(1) =~= s@.skip(i + 1));
        }
        i += 1;
    }
    proof {
        assert(trim_left_spec(s@) == s@.skip(i as int));
    }
    let mut j: usize = n;
    while j > i && is_space(s.get_char(j - 1))
        invariant
            i <= j <= n,
            n == s@.len(),
            trim_left_spec(s@) == s@.skip(i as int),
            trim_spec(s@) == trim_right_spec(s@.subrange(i as int, j as int)),
        decreases j,
    {
        proof {
            let cur = s@.subrange(i as int, j as int);
            assert(cur[cur.len() - 1] == s@[j - 1]);
            assert(cur.take(cur.len() - 1) =~= s@.subrange(i as int, j - 1));
        }
        j -= 1;
    }
    proof {
        let cur = s@.subrange(i as int, j as int);
        if j > i {
            assert(cur[cur.len() - 1] == s@[j - 1]);
            assert(trim_right_spec(cur) == cur);
        } else {
            assert(cur =~= Seq::<char>::empty());
            assert(trim_right_spec(cur) == cur);
        }
    }
    let r = s.substring_char(i, j);
    r.to_owned()
}

/// The position of the first line break in `s`, or `s.len()` when there is
/// none.
pub open spec fn line_break(s: Seq<char>) -> int
    decreases s.len(),
{
    if s.len() == 0 {
        0
    } else if s[0] == '\n' {
        0
    } else {
        1 + line_break(s.skip(1))
    }
}

/// A position before which no character is a line break, and which holds one
/// unless it is the end, is the position `line_break` denotes.
pub(crate) proof fn lemma_line_break_at(s: Seq<char>, b: int)
    requires
        0 <= b <= s.len(),
        forall|j: int| 0 <= j < b ==> s[j] != '\n',
        b < s.len() ==> s[b] == '\n',
    ensures
        line_break(s) == b,
    decreases s.len(),
{
    if s.len() == 0 {
    } else if s[0] == '\n' {
        assert(b == 0);
    } else {
        assert(b >= 1);
        let t = s.skip(1);
        assert forall|j: int| 0 <= j < b - 1 implies t[j] != '\n' by {
            assert(t[j] == s[j + 1]);
        }
        assert(b - 1 < t.len() ==> t[b - 1] == '\n');
        lemma_line_break_at(t, b - 1);
    }
}

/// The file paths stored in a playlist file's text: each line, trimmed,
/// empty lines skipped, in order.
pub open spec fn parsed_paths(s: Seq<char>) -> Seq<Seq<char>>
    decreases s.len(),
{
    if s.len() == 0 {
        Seq::empty()
    } else {
        let b = line_break(s);
        if 0 <= b < s.len() {
            let line = trim_spec(s.take(b));
            let rest = parsed_paths(s.skip(b + 1));
            (if line.len() > 0 {
                seq![line]
            } else {
                Seq::empty()
            }) + rest
        } else {
            let line = trim_spec(s);
            if line.len() > 0 {
                seq![line]
            } else {
                Seq::empty()
            }
        }
    }
}

/// The text a playlist's paths are stored as: each path followed by a line
/// break, in list order.
pub open spec fn rendered_paths(ps: Seq<Seq<char>>) -> Seq<char>
    decreases ps.len(),
{
    if ps.len() == 0 {
        Seq::empty()
    } else {
        ps[0] + seq!['\n'] + rendered_paths(ps.skip(1))
    }
}

/// Rendering one more path appends it and a line break at the end.
proof fn lemma_rendered_push(ps: Seq<Seq<char>>, p: Seq<char>)
    ensures
        rendered_paths(ps.push(p)) == rendered_paths(ps) + p + seq!['\n'],
    decreases ps.len(),
{
    if ps.len() == 0 {
        assert(ps.push(p).skip(1) =~= Seq::<Seq<char>>::empty());
        assert(ps.push(p)[0] == p);
        assert(rendered_paths(ps.push(p)) == p + seq!['\n'] + rendered_paths(
            Seq::<Seq<char>>::empty(),
        ));
        assert(rendered_paths(ps.push(p)) =~= rendered_paths(ps) + p + seq!['\n']);
    } else {
        let tail = ps.skip(1);
        assert(ps.push(p).skip(1) =~= tail.push(p));
        assert(ps.push(p)[0] == ps[0]);
        assert(rendered_paths(ps.push(p)) == ps[0] + seq!['\n'] + rendered_paths(tail.push(p)));
        lemma_rendered_push(tail, p);
        assert(rendered_paths(tail.push(p)) == rendered_paths(tail) + p + seq!['\n']);
        assert(ps[0] + seq!['\n'] + (rendered_paths(tail) + p + seq!['\n']) =~= (ps[0]
            + seq!['\n'] + rendered_paths(tail)) + p + seq!['\n']);
        assert(rendered_paths(ps) == ps[0] + seq!['\n'] + rendered_paths(tail));
    }
}

/// Renders a playlist's track paths as the text of its file.
pub fn render_playlist(pl: &Playlist) -> (r: String)
    ensures
        r@ == rendered_paths(pl.tracks@.map_values(|t: Track| t.file_path@)),
{
    let ghost paths = pl.tracks@.map_values(|t: Track| t.file_path@);
    let mut r = String::new();
    let mut i: usize = 0;
    while i < pl.tracks.len()
        invariant
            i <= pl.tracks@.len(),
            paths == pl.tracks@.map_values(|t: Track| t.file_path@),
            r@ == rendered_paths(paths.take(i as int)),
        decreases pl.tracks@.len() - i,
    {
        r.append(pl.tracks[i].file_path.as_str());
        r.append("\n");
        proof {
            reveal_strlit("\n");
            assert(paths.take(i as int).push(paths[i as int]) =~= paths.take(i + 1));
            lemma_rendered_push(paths.take(i as int), paths[i as int]);
            assert("\n"@ =~= seq!['\n']);
        }
        i += 1;
    }
    proof {
        assert(paths.take(paths.len() as int) =~= paths);
    }
    r
}

/// The suffix of `s` after its last path separator (all of `s` when there
/// is none, empty when `s` ends with one).
pub open spec fn after_last_slash(s: Seq<char>) -> Seq<char>
    decreases s.len(),
{
    if s.len() == 0 {
        s
    } else if s[s.len() - 1] == '/' {
        Seq::empty()
    } else {
        after_last_slash(s.take(s.len() - 1)).push(s[s.len() - 1])
    }
}

/// The position of the last dot in `s`, or `-1` when there is none.
pub open spec fn last_dot_index(s: Seq<char>) -> int
    decreases s.len(),
{
    if s.len() == 0 {
        -1
    } else if s[s.len() - 1] == '.' {
        s.len() - 1
    } else {
        last_dot_index(s.take(s.len() - 1))
    }
}

/// A file name without its extension: the part before the last dot, or the
/// whole name when there is no dot or the only dot leads it.
pub open spec fn stem_of_name(name: Seq<char>) -> Seq<char> {
    let d = last_dot_index(name);
    if d <= 0 {
        name
    } else {
        name.take(d)
    }
}

/// The file name a path denotes, if any: its last component, with
/// trailing separators and bare current-directory components (`.`)
/// ignored, as the platform's path reading does; nothing when the path
/// runs out or ends in a parent-directory component (`..`).
pub open spec fn path_file_name(p: Seq<char>) -> Option<Seq<char>>
    decreases p.len(),
{
    if p.len() == 0 {
        None
    } else if p[p.len() - 1] == '/' {
        path_file_name(p.take(p.len() - 1))
    } else {
        let name = after_last_slash(p);
        if name == seq!['.'] {
            path_file_name(p.take(p.len() - 1))
        } else if name == seq!['.', '.'] {
            None
        } else {
            Some(name)
        }
    }
}

/// The display title derived from a stored file path: the file name with
/// its extension stripped, or the whole path when no usable file name can
/// be read off it.
pub open spec fn title_of_path(p: Seq<char>) -> Seq<char> {
    match path_file_name(p) {
        Some(name) => stem_of_name(name),
        None => p,
    }
}

/// A position before which the tail of `t` has no separator, and which
/// follows one unless it is the start, marks where `after_last_slash` cuts.
proof fn lemma_after_last_slash_at(t: Seq<char>, k: int)
    requires
        0 <= k <= t.len(),
        forall|m: int| k <= m < t.len() ==> t[m] != '/',
        k > 0 ==> t[k - 1] == '/',
    ensures
        after_last_slash(t) == t.skip(k),
    decreases t.len(),
{
    if t.len() == 0 {
        assert(t.skip(0) =~= t);
    } else if t[t.len() - 1] == '/' {
        assert(k == t.len());
        assert(t.skip(k) =~= Seq::<char>::empty());
    } else {
        assert(k <= t.len() - 1);
        let t2 = t.take(t.len() - 1);
        assert forall|m: int| k <= m < t2.len() implies t2[m] != '/' by {
            assert(t2[m] == t[m]);
        }
        lemma_after_last_slash_at(t2, k);
        assert(t2.skip(k).push(t[t.len() - 1]) =~= t.skip(k));
    }
}

/// A position after which `s` has no dot, and which holds one unless it is
/// `-1`, is the position `last_dot_index` denotes.
proof fn lemma_last_dot_at(s: Seq<char>, d: int)
    requires
        -1 <= d < s.len(),
        forall|m: int| d < m < s.len() ==> s[m] != '.',
        d >= 0 ==> s[d] == '.',
    ensures
        last_dot_index(s) == d,
    decreases s.len(),
{
    if s.len() == 0 {
    } else if s[s.len() - 1] == '.' {
        assert(d == s.len() - 1);
    } else {
        assert(d < s.len() - 1);
        let t = s.take(s.len() - 1);
        assert forall|m: int| d < m < t.len() implies t[m] != '.' by {
            assert(t[m] == s[m]);
        }
        lemma_last_dot_at(t, d);
    }
}

/// Derives a track's display title from its stored file path.
pub fn title_from_path(p: &str) -> (r: String)
    ensures
        r@ == title_of_path(p@),
{
    let n = p.unicode_len();
    let mut e: usize = n;
    proof {
        assert(p@.take(n as int) =~= p@);
    }
    loop
        invariant
            e <= n,
            n == p@.len(),
            path_file_name(p@) == path_file_name(p@.take(e as int)),
        decreases e,
    {
        let ghost e0 = e;
        while e > 0 && p.get_char(e - 1) == '/'
            invariant
                e <= e0,
                e0 <= n,
                n == p@.len(),
                path_file_name(p@) == path_file_name(p@.take(e as int)),
            decreases e,
        {
            proof {
                let cur = p@.take(e as int);
                assert(cur[cur.len() - 1] == p@[e - 1]);
                assert(cur.take(cur.len() - 1) =~= p@.take(e - 1));
            }
            e -= 1;
        }
        if e == 0 {
            proof {
                assert(p@.take(0).len() == 0);
            }
            return p.to_owned();
        }
        let ghost t = p@.take(e as int);
        let mut k: usize = e;
        while k > 0 && p.get_char(k - 1) != '/'
            invariant
                k <= e <= n,
                n == p@.len(),
                forall|m: int| k <= m < e ==> p@[m] != '/',
            decreases k,
        {
            k -= 1;
        }
        proof {
            assert forall|m: int| k <= m < t.len() implies t[m] != '/' by {
                assert(t[m] == p@[m]);
            }
            lemma_after_last_slash_at(t, k as int);
            assert(t.skip(k as int) =~= p@.subrange(k as int, e as int));
        }
        let ghost name = p@.subrange(k as int, e as int);
        if e - k == 1 && p.get_char(k) == '.' {
            // A bare current-directory component: drop it and look at what
            // precedes it.
            proof {
                assert(name =~= seq!['.']);
                assert(t[t.len() - 1] == p@[e - 1]);
                assert(t.take(t.len() - 1) =~= p@.take(e - 1));
            }
            e -= 1;
            continue;
        }
        if e - k == 2 && p.get_char(k) == '.' && p.get_char(k + 1) == '.' {
            proof {
                assert(name =~= seq!['.', '.']);
            }
            return p.to_owned();
        }
        proof {
            assert(name.len() > 0);
            assert(name != seq!['.'] && name != seq!['.', '.']) by {
                if name == seq!['.'] {
                    assert(name.len() == 1 && name[0] == '.');
                    assert(p@[k as int] == '.');
                }
                if name == seq!['.', '.'] {
                    assert(name.len() == 2 && name[0] == '.' && name[1] == '.');
                    assert(p@[k as int] == '.' && p@[k + 1] == '.');
                }
            }
            assert(path_file_name(p@) == Some(name));
        }
        let mut d: usize = e;
        while d > k && p.get_char(d - 1) != '.'
            invariant
                k <= d <= e <= n,
                n == p@.len(),
                forall|m: int| d <= m < e ==> p@[m] != '.',
            decreases d,
        {
            d -= 1;
        }
        if d == k {
            proof {
                assert forall|m: int| -1 < m < name.len() implies name[m] != '.' by {
                    assert(name[m] == p@[k + m]);
                }
                lemma_last_dot_at(name, -1);
            }
            let stem = p.substring_char(k, e);
            proof {
                assert(stem@ =~= name);
            }
            return stem.to_owned();
        } else {
            let ghost di = d - 1 - k as int;
            proof {
                assert(name[di] == p@[d - 1] == '.');
                assert forall|m: int| di < m < name.len() implies name[m] != '.' by {
                    assert(name[m] == p@[k + m]);
                }
                lemma_last_dot_at(name, di);
            }
            if d - 1 == k {
                let stem = p.substring_char(k, e);
                proof {
                    assert(stem@ =~= name);
                }
                return stem.to_owned();
            } else {
                let stem = p.substring_char(k, d - 1);
                proof {
                    assert(stem@ =~= name.take(di));
                }
                return stem.to_owned();
            }
        }
    }
}

/// Rebuilds a playlist from the text of its file: one path per line,
/// surrounding whitespace trimmed, empty lines skipped; each track's title
/// is derived from its path's file name, and no source link or duration
/// survives persistence.
pub fn parse_playlist_text(name: &str, contents: &str) -> (r: Playlist)
    ensures
        r.name@ == name@,
        r.tracks@.map_values(|t: Track| t.file_path@) == parsed_paths(contents@),
        forall|j: int| 0 <= j < r.tracks@.len() ==> {
            &&& (#[trigger] r.tracks@[j]).title@ == title_of_path(r.tracks@[j].file_path@)
            &&& r.tracks@[j].url is None
            &&& r.tracks@[j].duration is None
        },
{
    let ghost whole = contents@;
    let n = contents.unicode_len();
    let mut pl = Playlist::new(name);
    let mut pos: usize = 0;
    proof {
        assert(whole.skip(0) =~= whole);
        assert(pl.tracks@.map_values(|t: Track| t.file_path@) =~= Seq::<Seq<char>>::empty());
    }
    while pos < n
        invariant
            pos <= n,
            n == whole.len(),
            contents@ == whole,
            pl.name@ == name@,
            pl.tracks@.map_values(|t: Track| t.file_path@) + parsed_paths(
                whole.skip(pos as int),
            ) == parsed_paths(whole),
            forall|j: int| 0 <= j < pl.tracks@.len() ==> {
                &&& (#[trigger] pl.tracks@[j]).title@ == title_of_path(
                    pl.tracks@[j].file_path@,
                )
                &&& pl.tracks@[j].url is None
                &&& pl.tracks@[j].duration is None
            },
        decreases n - pos,
    {
        let ghost rem = whole.skip(pos as int);
        let mut e: usize = pos;
        while e < n && contents.get_char(e) != '\n'
            invariant
                pos <= e <= n,
                n == whole.len(),
                contents@ == whole,
                forall|m: int| pos <= m < e ==> whole[m] != '\n',
            decreases n - e,
        {
            e += 1;
        }
        proof {
            assert forall|m: int| 0 <= m < e - pos implies rem[m] != '\n' by {
                assert(rem[m] == whole[pos + m]);
            }
            if e < n {
                assert(rem[e - pos] == whole[e as int]);
            }
            lemma_line_break_at(rem, e - pos as int);
            assert(rem.take(e - pos as int) =~= whole.subrange(pos as int, e as int));
        }
        let line = contents.substring_char(pos, e);
        let trimmed = trim_str(line);
        let ghost before = pl.tracks@.map_values(|t: Track| t.file_path@);
        if trimmed.unicode_len() > 0 {
            let title = title_from_path(trimmed.as_str());
            let track = Track { title, file_path: trimmed, url: None, duration: None };
            pl.add_track(track);
            proof {
                assert(pl.tracks@.map_values(|t: Track| t.file_path@) =~= before.push(
                    trim_spec(rem.take(e - pos as int)),
                ));
            }
        }
        proof {
            let b = e - pos as int;
            if b < rem.len() {
                assert(rem.skip(b + 1) =~= whole.skip(e + 1));
                if trim_spec(rem.take(b)).len() > 0 {
                    assert(parsed_paths(rem) =~= seq![trim_spec(rem.take(b))] + parsed_paths(
                        rem.skip(b + 1),
                    ));
                } else {
                    assert(parsed_paths(rem) =~= parsed_paths(rem.skip(b + 1)));
                }
                assert(pl.tracks@.map_values(|t: Track| t.file_path@) + parsed_paths(
                    whole.skip(e + 1),
                ) =~= parsed_paths(whole));
            } else {
                assert(rem.take(b) =~= rem);
                assert(whole.skip(n as int) =~= Seq::<char>::empty());
                assert(pl.tracks@.map_values(|t: Track| t.file_path@) + parsed_paths(
                    whole.skip(n as int),
                ) =~= parsed_paths(whole));
            }
        }
        if e < n {
            pos = e + 1;
        } else {
            pos = n;
        }
    }
    proof {
        assert(whole.skip(n as int) =~= Seq::<char>::empty());
        assert(pl.tracks@.map_values(|t: Track| t.file_path@) + Seq::<Seq<char>>::empty()
            =~= pl.tracks@.map_values(|t: Track| t.file_path@));
    }
    pl
}

/// A path the persistence format stores faithfully: non-empty, no line
/// break anywhere, and no whitespace at either end.
pub open spec fn persistable_path(p: Seq<char>) -> bool {
    &&& p.len() > 0
    &&& !is_space_char(p[0])
    &&& !is_space_char(p[p.len() - 1])
    &&& forall|i: int| 0 <= i < p.len() ==> p[i] != '\n'
}

/// Law: the persistence round trip is the identity on the stored paths.
/// Rendering a list of persistable paths and parsing the result back yields
/// exactly those paths, in the same order.  (Titles do not round-trip: the
/// parser derives each anew from its path's file name.)
pub proof fn lemma_persistence_round_trip(paths: Seq<Seq<char>>)
    requires
        forall|i: int| 0 <= i < paths.len() ==> persistable_path(#[trigger] paths[i]),
    ensures
        parsed_paths(rendered_paths(paths)) == paths,
    decreases paths.len(),
{
    if paths.len() == 0 {
        assert(parsed_paths(rendered_paths(paths)) =~= paths);
    } else {
        let p0 = paths[0];
        let rest = paths.skip(1);
        let s = rendered_paths(paths);
        assert(s == p0 + seq!['\n'] + rendered_paths(rest));
        assert forall|j: int| 0 <= j < p0.len() implies s[j] != '\n' by {
            assert(s[j] == p0[j]);
        }
        assert(s[p0.len() as int] == '\n');
        lemma_line_break_at(s, p0.len() as int);
        assert(s.len() > p0.len());
        assert(s.take(p0.len() as int) =~= p0);
        lemma_trim_untouched(p0);
        assert(s.skip(p0.len() as int + 1) =~= rendered_paths(rest));
        assert forall|i: int| 0 <= i < rest.len() implies persistable_path(
            #[trigger] rest[i],
        ) by {
            assert(rest[i] == paths[i + 1]);
        }
        lemma_persistence_round_trip(rest);
        assert(parsed_paths(s) == seq![p0] + rest);
        assert(seq![p0] + rest =~= paths);
    }
}

/// The file a playlist is stored in: its name under the playlists
/// directory, with the playlist extension.
pub open spec fn playlist_file_spec(dir: Seq<char>, name: Seq<char>) -> Seq<char> {
    dir + "/"@ + name + ".m3u"@
}

/// Builds the path of the file the named playlist is stored in.
pub fn playlist_file_path(dir: &str, name: &str) -> (r: String)
    ensures
        r@ == playlist_file_spec(dir@, name@),
{
    let mut r = dir.to_owned();
    r.append("/");
    r.append(name);
    r.append(".m3u");
    proof {
        assert(r@ =~= playlist_file_spec(dir@, name@));
    }
    r
}

/// Whether a file path bears the playlist extension, exactly and in lower
/// case: its file name has a dot after its first character and `m3u` after
/// the last dot.
pub open spec fn is_m3u_name(p: Seq<char>) -> bool {
    let name = after_last_slash(p);
    let d = last_dot_index(name);
    d > 0 && name.skip(d + 1) == seq!['m', '3', 'u']
}

/// Whether a file path bears the audio extension the library collects,
/// ASCII case ignored.
pub open spec fn is_mp3_name(p: Seq<char>) -> bool {
    let name = after_last_slash(p);
    let d = last_dot_index(name);
    d > 0 && {
        let ext = name.skip(d + 1);
        &&& ext.len() == 3
        &&& (ext[0] == 'm' || ext[0] == 'M')
        &&& (ext[1] == 'p' || ext[1] == 'P')
        &&& ext[2] == '3'
    }
}

/// The file name region of `p` and its last dot: returns `(k, d)` with the
/// file name at `p[k..]` and, when `d > k`, the name's last dot at `d - 1`.
fn name_and_dot(p: &str) -> (r: (usize, usize))
    ensures
        ({
            let (k, d) = r;
            let name = after_last_slash(p@);
            &&& k <= d <= p@.len()
            &&& name == p@.skip(k as int)
            &&& (d == k ==> last_dot_index(name) == -1)
            &&& (d > k ==> last_dot_index(name) == d - 1 - k && k <= d - 1)
        }),
{
    let n = p.unicode_len();
    let mut k: usize = n;
    while k > 0 && p.get_char(k - 1) != '/'
        invariant
            k <= n,
            n == p@.len(),
            forall|m: int| k <= m < n ==> p@[m] != '/',
        decreases k,
    {
        k -= 1;
    }
    proof {
        lemma_after_last_slash_at(p@, k as int);
    }
    let ghost name = p@.skip(k as int);
    let mut d: usize = n;
    while d > k && p.get_char(d - 1) != '.'
        invariant
            k <= d <= n,
            n == p@.len(),
            forall|m: int| d <= m < n ==> p@[m] != '.',
        decreases d,
    {
        d -= 1;
    }
    proof {
        if d == k {
            assert forall|m: int| -1 < m < name.len() implies name[m] != '.' by {
                assert(name[m] == p@[k + m]);
            }
            lemma_last_dot_at(name, -1);
        } else {
            let di = d - 1 - k as int;
            assert(name[di] == p@[d - 1] == '.');
            assert forall|m: int| di < m < name.len() implies name[m] != '.' by {
                assert(name[m] == p@[k + m]);
            }
            lemma_last_dot_at(name, di);
        }
    }
    (k, d)
}

/// Whether this file path names a stored playlist file.
pub fn is_m3u_path(p: &str) -> (r: bool)
    ensures
        r == is_m3u_name(p@),
{
    let n = p.unicode_len();
    let (k, d) = name_and_dot(p);
    let ghost name = after_last_slash(p@);
    if d == k || d - 1 == k {
        return false;
    }
    proof {
        assert(name.skip(last_dot_index(name) + 1) =~= p@.subrange(d as int, n as int));
    }
    if n - d != 3 {
        return false;
    }
    let r = p.get_char(d) == 'm' && p.get_char(d + 1) == '3' && p.get_char(d + 2) == 'u';
    proof {
        let ext = name.skip(last_dot_index(name) + 1);
        assert(ext.len() == 3);
        assert(ext[0] == p@[d as int] && ext[1] == p@[d + 1] && ext[2] == p@[d + 2]);
        if r {
            assert(ext =~= seq!['m', '3', 'u']);
        } else {
            assert(ext != seq!['m', '3', 'u']) by {
                if ext == seq!['m', '3', 'u'] {
                    assert(ext[0] == 'm' && ext[1] == '3' && ext[2] == 'u');
                }
            }
        }
    }
    r
}

/// Whether this file path names an audio file the library collects.
pub fn is_mp3_path(p: &str) -> (r: bool)
    ensures
        r == is_mp3_name(p@),
{
    let n = p.unicode_len();
    let (k, d) = name_and_dot(p);
    let ghost name = after_last_slash(p@);
    if d == k || d - 1 == k {
        return false;
    }
    proof {
        assert(name.skip(last_dot_index(name) + 1) =~= p@.subrange(d as int, n as int));
    }
    if n - d != 3 {
        return false;
    }
    let c0 = p.get_char(d);
    let c1 = p.get_char(d + 1);
    let c2 = p.get_char(d + 2);
    (c0 == 'm' || c0 == 'M') && (c1 == 'p' || c1 == 'P') && c2 == '3'
}

} // verus!
