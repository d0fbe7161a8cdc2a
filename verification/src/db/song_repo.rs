//! Song records and the path key that identifies a song file in the library.

use vstd::prelude::*;
use vstd::string::*;
use crate::text::{
    ascii_lower, ascii_lower_char, chars_of, is_ascii_text, lowercase, push_char, spec_lowercase, string_of,
    string_of_range,
};

verus! {

/// One song of the library, as stored and as handed to the interface.
#[derive(Debug, Clone)]
pub struct SongDto {
    pub id: i64,
    pub path: String,
    pub path_key: String,
    pub file_name: String,
    pub title: String,
    pub artist: Option<String>,
    pub album: Option<String>,
    pub album_artist: Option<String>,
    pub genre: Option<String>,
    pub track_number: Option<i32>,
    pub disc_number: Option<i32>,
    pub duration_ms: i64,
    pub format: Option<String>,
    pub extension: Option<String>,
    pub codec_hint: Option<String>,
    pub size_bytes: i64,
    pub modified_time: i64,
    pub added_at: i64,
    pub updated_at: i64,
    pub last_played_at: Option<i64>,
    pub play_count: i64,
    pub playable: bool,
    pub missing: bool,
    pub last_error: Option<String>,
}

/// The separator of path keys.
pub open spec fn key_separator() -> char {
    '\\'
}

/// `s` with every `from` replaced by `to`.
pub open spec fn replace_char(s: Seq<char>, from: char, to: char) -> Seq<char> {
    Seq::new(s.len(), |i: int| if s[i] == from { to } else { s[i] })
}

/// Splits `s` at every `sep`, the first piece starting with `cur`; as std's
/// `str::split` with a char pattern, empty pieces included.
pub open spec fn split_from(s: Seq<char>, sep: char, cur: Seq<char>) -> Seq<Seq<char>>
    decreases s.len(),
{
    if s.len() == 0 {
        seq![cur]
    } else if s[0] == sep {
        seq![cur] + split_from(s.drop_first(), sep, seq![])
    } else {
        split_from(s.drop_first(), sep, cur.push(s[0]))
    }
}

/// The pieces of `s` between occurrences of `sep`.
pub open spec fn split_on(s: Seq<char>, sep: char) -> Seq<Seq<char>> {
    split_from(s, sep, seq![])
}

/// The pieces, with `sep` between each two of them.
pub open spec fn join_with(parts: Seq<Seq<char>>, sep: char) -> Seq<char>
    decreases parts.len(),
{
    if parts.len() == 0 {
        seq![]
    } else if parts.len() == 1 {
        parts[0]
    } else {
        join_with(parts.drop_last(), sep).push(sep) + parts.last()
    }
}

/// Whether a piece is non-empty.
pub open spec fn non_empty(p: Seq<char>) -> bool {
    p.len() > 0
}

/// The filter that keeps the non-empty pieces.
pub open spec fn keep_piece() -> spec_fn(Seq<char>) -> bool {
    |p: Seq<char>| non_empty(p)
}

/// The key of a path: `/` turned into `\`, lowercased, split at `\`, empty
/// pieces dropped, and the rest joined with `\`.
pub open spec fn spec_path_key(path: Seq<char>) -> Seq<char> {
    let lowered = spec_lowercase(replace_char(path, '/', key_separator()));
    join_with(split_on(lowered, key_separator()).filter(keep_piece()), key_separator())
}

/// The non-empty segments of a path, `/` and `\\` both taken as separators.
pub open spec fn path_segments(path: Seq<char>) -> Seq<Seq<char>> {
    split_on(replace_char(path, '/', key_separator()), key_separator()).filter(keep_piece())
}

/// Each piece in its ASCII lowercase.
pub open spec fn lower_pieces(parts: Seq<Seq<char>>) -> Seq<Seq<char>> {
    parts.map_values(|p: Seq<char>| ascii_lower(p))
}

/// The key of an ASCII path, the lowercase mapping being ASCII's there: the
/// non-empty segments in lower case, joined with `\\`.
pub open spec fn ascii_path_key(path: Seq<char>) -> Seq<char> {
    join_with(
        split_on(ascii_lower(replace_char(path, '/', key_separator())), key_separator()).filter(keep_piece()),
        key_separator(),
    )
}

proof fn lemma_join_push(parts: Seq<Seq<char>>, x: Seq<char>, sep: char)
    ensures
        join_with(parts.push(x), sep) == if parts.len() == 0 {
            x
        } else {
            join_with(parts, sep).push(sep) + x
        },
{
    assert(parts.push(x).drop_last() =~= parts);
}

proof fn lemma_filter_push(parts: Seq<Seq<char>>, x: Seq<char>)
    ensures
        parts.push(x).filter(keep_piece()) == if non_empty(x) {
            parts.filter(keep_piece()).push(x)
        } else {
            parts.filter(keep_piece())
        },
{
    reveal_with_fuel(Seq::filter, 1);
    assert(parts.push(x).drop_last() =~= parts);
}

/// The key under which the library stores a path: separators unified to `\`,
/// lowercased, empty segments removed. Two spellings of one file get one key.
pub fn normalize_path_key(path: &str) -> (key: String)
    ensures
        key@ == spec_path_key(path@),
        is_ascii_text(path@) ==> key@ == ascii_path_key(path@),
{
    let sep = '\\';
    let src = chars_of(path);
    let mut replaced: Vec<char> = Vec::new();
    let mut i: usize = 0;
    while i < src.len()
        invariant
            src@ == path@,
            i <= src.len(),
            replaced@ == replace_char(path@, '/', sep).subrange(0, i as int),
        decreases src.len() - i,
    {
        let c = if src[i] == '/' { sep } else { src[i] };
        replaced.push(c);
        i += 1;
    }
    assert(replaced@ =~= replace_char(path@, '/', sep));
    let unified = string_of(&replaced);
    let lowered = lowercase(unified.as_str());
    proof {
        if is_ascii_text(path@) {
            assert forall|k: int| 0 <= k < unified@.len() implies (#[trigger] unified@[k] as u32) < 128 by {
                assert((path@[k] as u32) < 128);
            }
        }
    }
    let l = chars_of(lowered.as_str());
    let ghost lw = l@;
    let ghost pred = keep_piece();

    let mut out = String::new();
    let mut any = false;
    let mut start: usize = 0;
    let ghost mut parts: Seq<Seq<char>> = seq![];
    let mut j: usize = 0;
    assert(lw.skip(0) =~= lw);
    assert(lw.subrange(0, 0) =~= Seq::<char>::empty());
    while j < l.len()
        invariant
            l@ == lw,
            pred == keep_piece(),
            start <= j <= l.len(),
            split_on(lw, sep) == parts + split_from(lw.skip(j as int), sep, lw.subrange(start as int, j as int)),
            out@ == join_with(parts.filter(pred), sep),
            any == (parts.filter(pred).len() > 0),
        decreases l.len() - j,
    {
        if l[j] == sep {
            let ghost cur = lw.subrange(start as int, j as int);
            proof {
                assert(lw.skip(j as int).drop_first() =~= lw.skip(j + 1));
                assert(lw.subrange(j + 1, j + 1) =~= Seq::<char>::empty());
                assert(parts + (seq![cur] + split_from(lw.skip(j + 1), sep, seq![]))
                    =~= parts.push(cur) + split_from(lw.skip(j + 1), sep, seq![]));
                lemma_filter_push(parts, cur);
                lemma_join_push(parts.filter(pred), cur, sep);
            }
            if j > start {
                if any {
                    push_char(&mut out, sep);
                }
                let piece = string_of_range(&l, start, j);
                out.append(piece.as_str());
                any = true;
            }
            proof {
                parts = parts.push(cur);
            }
            start = j + 1;
        } else {
            proof {
                assert(lw.skip(j as int).drop_first() =~= lw.skip(j + 1));
                assert(lw.subrange(start as int, j as int).push(lw[j as int])
                    =~= lw.subrange(start as int, j + 1));
            }
        }
        j += 1;
    }
    let ghost cur = lw.subrange(start as int, j as int);
    proof {
        assert(parts + split_from(lw.skip(j as int), sep, cur) =~= parts.push(cur));
        lemma_filter_push(parts, cur);
        lemma_join_push(parts.filter(pred), cur, sep);
    }
    if j > start {
        if any {
            push_char(&mut out, sep);
        }
        let piece = string_of_range(&l, start, j);
        out.append(piece.as_str());
    }
    out
}

/// Whether `c` is one of the two path separators, `/` or `\`.
pub open spec fn is_path_separator(c: char) -> bool {
    c == '/' || c == '\\'
}

/// A key in canonical form: it neither starts nor ends with `\`, and no two
/// `\` stand side by side (no empty segment).
pub open spec fn is_canonical_key(k: Seq<char>) -> bool {
    &&& k.len() > 0 ==> k[0] != key_separator() && k.last() != key_separator()
    &&& forall|i: int| 0 <= i && i + 1 < k.len() ==> !(#[trigger] k[i] == key_separator() && k[i + 1] == key_separator())
}

proof fn lemma_split_pieces_avoid(s: Seq<char>, sep: char, cur: Seq<char>)
    requires
        !cur.contains(sep),
    ensures
        forall|k: int| 0 <= k < split_from(s, sep, cur).len() ==> !(#[trigger] split_from(s, sep, cur)[k]).contains(sep),
    decreases s.len(),
{
    if s.len() == 0 {
        assert(split_from(s, sep, cur) =~= seq![cur]);
        assert(split_from(s, sep, cur)[0] == cur);
    } else if s[0] == sep {
        let e: Seq<char> = seq![];
        lemma_split_pieces_avoid(s.drop_first(), sep, e);
        let rest = split_from(s.drop_first(), sep, e);
        assert forall|k: int| 0 <= k < split_from(s, sep, cur).len() implies !(#[trigger] split_from(s, sep, cur)[k]).contains(sep) by {
            assert(split_from(s, sep, cur) == seq![cur] + rest);
            if k > 0 {
                assert(split_from(s, sep, cur)[k] == rest[k - 1]);
            } else {
                assert(split_from(s, sep, cur)[k] == cur);
            }
        }
    } else {
        let next = cur.push(s[0]);
        assert forall|i: int| 0 <= i < next.len() implies next[i] != sep by {
            if i < cur.len() {
                assert(next[i] == cur[i]);
            }
        }
        lemma_split_pieces_avoid(s.drop_first(), sep, next);
        assert(split_from(s, sep, cur) == split_from(s.drop_first(), sep, next));
    }
}

proof fn lemma_join_canonical(parts: Seq<Seq<char>>)
    requires
        forall|k: int| 0 <= k < parts.len() ==> (#[trigger] parts[k]).len() > 0 && !parts[k].contains(key_separator()),
    ensures
        is_canonical_key(join_with(parts, key_separator())),
        parts.len() > 0 ==> join_with(parts, key_separator()).len() > 0,
    decreases parts.len(),
{
    let sep = key_separator();
    if parts.len() == 0 {
    } else if parts.len() == 1 {
        let p = parts[0];
        assert(!p.contains(sep));
        assert forall|i: int| 0 <= i && i + 1 < p.len() implies !(#[trigger] p[i] == sep && p[i + 1] == sep) by {
            if p[i] == sep {
                assert(p.contains(sep));
            }
        }
        assert(p[0] != sep) by { if p[0] == sep { assert(p.contains(sep)); } }
        assert(p.last() != sep) by { if p.last() == sep { assert(p.contains(sep)); } }
    } else {
        let init = parts.drop_last();
        let last = parts.last();
        assert(parts[parts.len() - 1] == last);
        lemma_join_canonical(init);
        let j0 = join_with(init, sep);
        let j = join_with(parts, sep);
        assert(j == j0.push(sep) + last);
        let n0 = j0.len() as int;
        assert(!last.contains(sep));
        assert forall|t: int| 0 <= t < last.len() implies last[t] != sep by {
            if last[t] == sep {
                assert(last.contains(sep));
            }
        }
        assert(j[0] != sep) by {
            assert(j[0] == j0[0]);
        }
        assert(j.last() != sep) by {
            assert(j.last() == last[last.len() - 1]);
        }
        assert forall|i: int| 0 <= i && i + 1 < j.len() implies !(#[trigger] j[i] == sep && j[i + 1] == sep) by {
            if i + 1 < n0 {
                assert(j[i] == j0[i] && j[i + 1] == j0[i + 1]);
            } else if i + 1 == n0 {
                assert(j[i] == j0.last());
            } else if i == n0 {
                assert(j[i + 1] == last[0]);
            } else {
                assert(j[i] == last[i - n0 - 1]);
            }
        }
    }
}

/// Law: every path key is canonical. Whatever the path, its key neither
/// starts nor ends with a separator and holds no empty segment.
pub proof fn law_path_key_is_canonical(path: Seq<char>)
    ensures
        is_canonical_key(spec_path_key(path)),
{
    let sep = key_separator();
    let lowered = spec_lowercase(replace_char(path, '/', sep));
    let parts = split_on(lowered, sep);
    let kept = parts.filter(keep_piece());
    let e: Seq<char> = seq![];
    lemma_split_pieces_avoid(lowered, sep, e);
    assert forall|k: int| 0 <= k < kept.len() implies (#[trigger] kept[k]).len() > 0 && !kept[k].contains(sep) by {
        parts.lemma_filter_pred(keep_piece(), k);
        assert(kept.contains(kept[k]));
        parts.lemma_filter_contains_rev(keep_piece(), kept[k]);
        let w = choose|w: int| 0 <= w < parts.len() && parts[w] == kept[k];
        assert(!parts[w].contains(sep));
    }
    lemma_join_canonical(kept);
}

/// Law: the key does not depend on the separator style. Two paths that agree
/// everywhere except that one has `/` where the other has `\` get one key.
pub proof fn law_path_key_ignores_separator_style(p: Seq<char>, q: Seq<char>)
    requires
        p.len() == q.len(),
        forall|i: int| 0 <= i < p.len() ==> p[i] == q[i] || (is_path_separator(p[i]) && is_path_separator(q[i])),
    ensures
        spec_path_key(p) == spec_path_key(q),
{
    assert(replace_char(p, '/', key_separator()) =~= replace_char(q, '/', key_separator()));
}


/// A character that can stand in the key of an ASCII path: ASCII, not `/`,
/// and its own ASCII lowercase.
pub open spec fn is_key_char(c: char) -> bool {
    (c as u32) < 128 && c != '/' && ascii_lower_char(c) == c
}

proof fn lemma_split_pieces_key_chars(s: Seq<char>, sep: char, cur: Seq<char>)
    requires
        forall|i: int| 0 <= i < s.len() ==> is_key_char(#[trigger] s[i]),
        forall|i: int| 0 <= i < cur.len() ==> is_key_char(#[trigger] cur[i]),
    ensures
        forall|k: int, t: int|
            0 <= k < split_from(s, sep, cur).len() && 0 <= t < split_from(s, sep, cur)[k].len()
                ==> is_key_char(#[trigger] split_from(s, sep, cur)[k][t]),
    decreases s.len(),
{
    if s.len() == 0 {
        assert(split_from(s, sep, cur) =~= seq![cur]);
    } else if s[0] == sep {
        let e: Seq<char> = seq![];
        lemma_split_pieces_key_chars(s.drop_first(), sep, e);
        let rest = split_from(s.drop_first(), sep, e);
        assert forall|k: int, t: int|
            0 <= k < split_from(s, sep, cur).len() && 0 <= t < split_from(s, sep, cur)[k].len()
                implies is_key_char(#[trigger] split_from(s, sep, cur)[k][t]) by {
            assert(split_from(s, sep, cur) == seq![cur] + rest);
            if k > 0 {
                assert(split_from(s, sep, cur)[k] == rest[k - 1]);
            } else {
                assert(split_from(s, sep, cur)[k] == cur);
            }
        }
    } else {
        let next = cur.push(s[0]);
        assert forall|i: int| 0 <= i < next.len() implies is_key_char(#[trigger] next[i]) by {
            if i < cur.len() {
                assert(next[i] == cur[i]);
            } else {
                assert(next[i] == s[0]);
            }
        }
        assert forall|i: int| 0 <= i < s.drop_first().len() implies is_key_char(#[trigger] s.drop_first()[i]) by {
            assert(s.drop_first()[i] == s[i + 1]);
        }
        lemma_split_pieces_key_chars(s.drop_first(), sep, next);
        assert(split_from(s, sep, cur) == split_from(s.drop_first(), sep, next));
    }
}

proof fn lemma_join_key_chars(parts: Seq<Seq<char>>, sep: char)
    requires
        is_key_char(sep),
        forall|k: int, t: int| 0 <= k < parts.len() && 0 <= t < parts[k].len() ==> is_key_char(#[trigger] parts[k][t]),
    ensures
        forall|i: int| 0 <= i < join_with(parts, sep).len() ==> is_key_char(#[trigger] join_with(parts, sep)[i]),
    decreases parts.len(),
{
    if parts.len() == 0 {
    } else if parts.len() == 1 {
        assert forall|i: int| 0 <= i < join_with(parts, sep).len() implies is_key_char(#[trigger] join_with(parts, sep)[i]) by {
            assert(join_with(parts, sep)[i] == parts[0][i]);
        }
    } else {
        let init = parts.drop_last();
        let last = parts.last();
        assert forall|k: int, t: int| 0 <= k < init.len() && 0 <= t < init[k].len() implies is_key_char(#[trigger] init[k][t]) by {
            assert(init[k] == parts[k]);
        }
        lemma_join_key_chars(init, sep);
        let j0 = join_with(init, sep);
        let j = join_with(parts, sep);
        assert(j == j0.push(sep) + last);
        assert forall|i: int| 0 <= i < j.len() implies is_key_char(#[trigger] j[i]) by {
            if i < j0.len() {
                assert(j[i] == j0[i]);
            } else if i == j0.len() {
                assert(j[i] == sep);
            } else {
                assert(j[i] == last[i - j0.len() - 1]);
                assert(last == parts[parts.len() - 1]);
            }
        }
    }
}

/// The non-empty pieces of `s`, split at `\`: none holds `\`, and where every
/// character of `s` is a key character, so is every character of a piece.
proof fn lemma_kept_pieces(s: Seq<char>)
    ensures
        forall|k: int| 0 <= k < split_on(s, key_separator()).filter(keep_piece()).len() ==> {
            let p = #[trigger] split_on(s, key_separator()).filter(keep_piece())[k];
            p.len() > 0 && !p.contains(key_separator())
        },
        (forall|i: int| 0 <= i < s.len() ==> is_key_char(#[trigger] s[i])) ==> forall|k: int, t: int|
            0 <= k < split_on(s, key_separator()).filter(keep_piece()).len() && 0 <= t
                < split_on(s, key_separator()).filter(keep_piece())[k].len() ==> is_key_char(
                #[trigger] split_on(s, key_separator()).filter(keep_piece())[k][t],
            ),
{
    let sep = key_separator();
    let parts = split_on(s, sep);
    let kept = parts.filter(keep_piece());
    let e: Seq<char> = seq![];
    lemma_split_pieces_avoid(s, sep, e);
    if forall|i: int| 0 <= i < s.len() ==> is_key_char(#[trigger] s[i]) {
        lemma_split_pieces_key_chars(s, sep, e);
    }
    assert forall|k: int| 0 <= k < kept.len() implies {
        let p = #[trigger] kept[k];
        p.len() > 0 && !p.contains(sep)
    } by {
        parts.lemma_filter_pred(keep_piece(), k);
        assert(kept.contains(kept[k]));
        parts.lemma_filter_contains_rev(keep_piece(), kept[k]);
        let w = choose|w: int| 0 <= w < parts.len() && parts[w] == kept[k];
        assert(!parts[w].contains(sep));
    }
    if forall|i: int| 0 <= i < s.len() ==> is_key_char(#[trigger] s[i]) {
        assert forall|k: int, t: int| 0 <= k < kept.len() && 0 <= t < kept[k].len() implies is_key_char(
            #[trigger] kept[k][t],
        ) by {
            assert(kept.contains(kept[k]));
            parts.lemma_filter_contains_rev(keep_piece(), kept[k]);
            let w = choose|w: int| 0 <= w < parts.len() && parts[w] == kept[k];
            assert(parts[w][t] == kept[k][t]);
        }
    }
}

proof fn lemma_split_no_sep(a: Seq<char>, sep: char, cur: Seq<char>)
    requires
        !a.contains(sep),
    ensures
        split_from(a, sep, cur) == seq![cur + a],
    decreases a.len(),
{
    if a.len() == 0 {
        assert(cur + a =~= cur);
    } else {
        assert(a[0] != sep) by {
            if a[0] == sep {
                assert(a.contains(sep));
            }
        }
        assert(!a.drop_first().contains(sep)) by {
            if a.drop_first().contains(sep) {
                let i = choose|i: int| 0 <= i < a.drop_first().len() && a.drop_first()[i] == sep;
                assert(a[i + 1] == sep);
            }
        }
        lemma_split_no_sep(a.drop_first(), sep, cur.push(a[0]));
        assert(cur.push(a[0]) + a.drop_first() =~= cur + a);
    }
}

proof fn lemma_split_concat(a: Seq<char>, b: Seq<char>, sep: char, cur: Seq<char>)
    ensures
        split_from(a + seq![sep] + b, sep, cur) == split_from(a, sep, cur) + split_from(b, sep, seq![]),
    decreases a.len(),
{
    let whole = a + seq![sep] + b;
    if a.len() == 0 {
        assert(whole.drop_first() =~= b);
        assert(split_from(a, sep, cur) =~= seq![cur]);
    } else {
        assert(whole[0] == a[0]);
        assert(whole.drop_first() =~= a.drop_first() + seq![sep] + b);
        if a[0] == sep {
            lemma_split_concat(a.drop_first(), b, sep, seq![]);
            assert(split_from(whole, sep, cur) =~= seq![cur] + split_from(a.drop_first(), sep, seq![]) + split_from(
                b,
                sep,
                seq![],
            ));
        } else {
            lemma_split_concat(a.drop_first(), b, sep, cur.push(a[0]));
        }
    }
}

proof fn lemma_split_join(parts: Seq<Seq<char>>, sep: char)
    requires
        parts.len() > 0,
        forall|k: int| 0 <= k < parts.len() ==> !(#[trigger] parts[k]).contains(sep),
    ensures
        split_on(join_with(parts, sep), sep) == parts,
    decreases parts.len(),
{
    let e: Seq<char> = seq![];
    if parts.len() == 1 {
        lemma_split_no_sep(parts[0], sep, e);
        assert(e + parts[0] =~= parts[0]);
        assert(seq![parts[0]] =~= parts);
    } else {
        let init = parts.drop_last();
        let last = parts.last();
        assert forall|k: int| 0 <= k < init.len() implies !(#[trigger] init[k]).contains(sep) by {
            assert(init[k] == parts[k]);
        }
        lemma_split_join(init, sep);
        let j0 = join_with(init, sep);
        assert(join_with(parts, sep) == j0.push(sep) + last);
        assert(j0.push(sep) + last =~= j0 + seq![sep] + last);
        lemma_split_concat(j0, last, sep, e);
        assert(!last.contains(sep)) by {
            assert(last == parts[parts.len() - 1]);
        }
        lemma_split_no_sep(last, sep, e);
        assert(e + last =~= last);
        assert(init + seq![last] =~= parts);
    }
}

proof fn lemma_filter_keeps_all(parts: Seq<Seq<char>>)
    requires
        forall|k: int| 0 <= k < parts.len() ==> (#[trigger] parts[k]).len() > 0,
    ensures
        parts.filter(keep_piece()) == parts,
    decreases parts.len(),
{
    reveal_with_fuel(Seq::filter, 1);
    if parts.len() > 0 {
        let init = parts.drop_last();
        assert forall|k: int| 0 <= k < init.len() implies (#[trigger] init[k]).len() > 0 by {
            assert(init[k] == parts[k]);
        }
        lemma_filter_keeps_all(init);
        lemma_filter_push(init, parts.last());
        assert(init.push(parts.last()) =~= parts);
    } else {
        assert(parts.filter(keep_piece()) =~= parts);
    }
}

proof fn lemma_split_lower(s: Seq<char>, cur: Seq<char>)
    ensures
        split_from(ascii_lower(s), key_separator(), ascii_lower(cur)) == lower_pieces(
            split_from(s, key_separator(), cur),
        ),
    decreases s.len(),
{
    let sep = key_separator();
    let ls = ascii_lower(s);
    if s.len() == 0 {
        assert(lower_pieces(seq![cur]) =~= seq![ascii_lower(cur)]);
    } else {
        assert(ls[0] == ascii_lower_char(s[0]));
        assert(ls.drop_first() =~= ascii_lower(s.drop_first()));
        if s[0] == sep {
            let e: Seq<char> = seq![];
            assert(ascii_lower(e) =~= e);
            lemma_split_lower(s.drop_first(), e);
            let rest = split_from(s.drop_first(), sep, e);
            assert(lower_pieces(seq![cur] + rest) =~= seq![ascii_lower(cur)] + lower_pieces(rest));
        } else {
            assert(ls[0] != sep);
            assert(ascii_lower(cur).push(ls[0]) =~= ascii_lower(cur.push(s[0])));
            lemma_split_lower(s.drop_first(), cur.push(s[0]));
        }
    }
}

proof fn lemma_filter_lower(parts: Seq<Seq<char>>)
    ensures
        lower_pieces(parts).filter(keep_piece()) == lower_pieces(parts.filter(keep_piece())),
    decreases parts.len(),
{
    reveal_with_fuel(Seq::filter, 1);
    if parts.len() == 0 {
        assert(lower_pieces(parts).filter(keep_piece()) =~= Seq::<Seq<char>>::empty());
        assert(lower_pieces(parts.filter(keep_piece())) =~= Seq::<Seq<char>>::empty());
    } else {
        let init = parts.drop_last();
        let x = parts.last();
        lemma_filter_lower(init);
        assert(init.push(x) =~= parts);
        assert(lower_pieces(parts) =~= lower_pieces(init).push(ascii_lower(x)));
        lemma_filter_push(lower_pieces(init), ascii_lower(x));
        lemma_filter_push(init, x);
        assert(lower_pieces(init.filter(keep_piece()).push(x)) =~= lower_pieces(init.filter(keep_piece())).push(
            ascii_lower(x),
        ));
    }
}

/// Law: the key of an ASCII path is a fixed point of the key. It is ASCII,
/// holds no `/`, is its own lowercase, and its own key is itself, so
/// normalising a key again changes nothing.
pub proof fn law_path_key_is_stable(path: Seq<char>)
    requires
        is_ascii_text(path),
    ensures
        is_ascii_text(ascii_path_key(path)),
        !ascii_path_key(path).contains('/'),
        ascii_lower(ascii_path_key(path)) == ascii_path_key(path),
        ascii_path_key(ascii_path_key(path)) == ascii_path_key(path),
{
    let sep = key_separator();
    let lowered = ascii_lower(replace_char(path, '/', sep));
    let kept = split_on(lowered, sep).filter(keep_piece());
    let key = ascii_path_key(path);
    assert forall|i: int| 0 <= i < lowered.len() implies is_key_char(#[trigger] lowered[i]) by {
        assert((path[i] as u32) < 128);
    }
    lemma_kept_pieces(lowered);
    lemma_join_key_chars(kept, sep);
    assert(key == join_with(kept, sep));
    assert forall|i: int| 0 <= i < key.len() implies (#[trigger] key[i] as u32) < 128 by {
        assert(is_key_char(key[i]));
    }
    assert(!key.contains('/')) by {
        if key.contains('/') {
            let i = choose|i: int| 0 <= i < key.len() && key[i] == '/';
            assert(is_key_char(key[i]));
        }
    }
    assert(ascii_lower(key) =~= key) by {
        assert forall|i: int| 0 <= i < key.len() implies ascii_lower(key)[i] == key[i] by {
            assert(is_key_char(key[i]));
        }
    }
    assert(replace_char(key, '/', sep) =~= key) by {
        assert forall|i: int| 0 <= i < key.len() implies replace_char(key, '/', sep)[i] == key[i] by {
            assert(is_key_char(key[i]));
        }
    }
    if kept.len() == 0 {
        assert(key =~= Seq::<char>::empty());
        assert(split_on(key, sep) =~= seq![Seq::<char>::empty()]);
        reveal_with_fuel(Seq::filter, 2);
        assert(seq![Seq::<char>::empty()].drop_last() =~= Seq::<Seq<char>>::empty());
        assert(split_on(key, sep).filter(keep_piece()) =~= Seq::<Seq<char>>::empty());
    } else {
        lemma_split_join(kept, sep);
        lemma_filter_keeps_all(kept);
    }
}

/// Law: letter case, separator style and empty segments do not change the
/// key. Two paths whose non-empty segments (with `/` and `\` both
/// separating) agree up to ASCII letter case get one key under the ASCII
/// mapping, which is the key of every ASCII path (see `normalize_path_key`);
/// so `C:/Music/A.mp3` and `c:\MUSIC\\a.MP3` are stored as one song.
pub proof fn law_path_key_ignores_case_and_empty_segments(a: Seq<char>, b: Seq<char>)
    requires
        lower_pieces(path_segments(a)) == lower_pieces(path_segments(b)),
    ensures
        ascii_path_key(a) == ascii_path_key(b),
{
    let sep = key_separator();
    let e: Seq<char> = seq![];
    assert(ascii_lower(e) =~= e);
    let ra = replace_char(a, '/', sep);
    let rb = replace_char(b, '/', sep);
    lemma_split_lower(ra, e);
    lemma_split_lower(rb, e);
    lemma_filter_lower(split_on(ra, sep));
    lemma_filter_lower(split_on(rb, sep));
}
} // verus!
