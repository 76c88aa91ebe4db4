//! Verified text primitives: substring matching, literal replacement,
//! suffix tests, and joining — the string work the build pipeline's
//! decisions rest on.

use vstd::prelude::*;

verus! {

/// True when `pat` occurs in `s` starting at index `i`.
pub open spec fn matches_at(s: Seq<char>, pat: Seq<char>, i: int) -> bool {
    0 <= i && i + pat.len() <= s.len() && s.subrange(i, i + pat.len()) == pat
}

/// True when `pat` occurs somewhere in `s`.
pub open spec fn contains_seq(s: Seq<char>, pat: Seq<char>) -> bool {
    exists|i: int| matches_at(s, pat, i)
}

/// `s` with every occurrence of `pat` replaced by `to`: occurrences are
/// taken leftmost-first and do not overlap.  When `pat` is empty, `s` is
/// returned unchanged.
pub open spec fn replace_all_spec(s: Seq<char>, pat: Seq<char>, to: Seq<char>) -> Seq<char>
    decreases s.len(),
{
    if pat.len() == 0 || s.len() < pat.len() {
        s
    } else if s.subrange(0, pat.len() as int) == pat {
        to + replace_all_spec(s.skip(pat.len() as int), pat, to)
    } else {
        seq![s[0]] + replace_all_spec(s.skip(1), pat, to)
    }
}

/// True when `suffix` ends `s`.
pub open spec fn ends_with_spec(s: Seq<char>, suffix: Seq<char>) -> bool {
    suffix.len() <= s.len() && s.subrange(s.len() - suffix.len(), s.len() as int) == suffix
}

/// `parts` joined by `sep`: no leading or trailing separator, one
/// separator between neighbours.
pub open spec fn join_with(parts: Seq<Seq<char>>, sep: Seq<char>) -> Seq<char>
    decreases parts.len(),
{
    if parts.len() == 0 {
        Seq::empty()
    } else if parts.len() == 1 {
        parts[0]
    } else {
        parts[0] + sep + join_with(parts.skip(1), sep)
    }
}

/// Joining one more part appends one separator and the part.
#[verifier::rlimit(50)]
pub proof fn lemma_join_push(parts: Seq<Seq<char>>, sep: Seq<char>, last: Seq<char>)
    ensures
        join_with(parts.push(last), sep) == if parts.len() == 0 {
            last
        } else {
            join_with(parts, sep) + sep + last
        },
    decreases parts.len(),
{
    if parts.len() == 0 {
        assert(parts.push(last) =~= seq![last]);
        assert(join_with(parts.push(last), sep) == last);
    } else if parts.len() == 1 {
        assert(parts.push(last).skip(1) =~= seq![last]);
        assert(join_with(seq![last], sep) == last);
        assert(join_with(parts.push(last), sep) == parts[0] + sep + last);
    } else {
        assert(parts.push(last).skip(1) =~= parts.skip(1).push(last));
        lemma_join_push(parts.skip(1), sep, last);
        assert(join_with(parts.push(last), sep) == parts[0] + sep + join_with(
            parts.skip(1).push(last),
            sep,
        ));
        assert(parts[0] + sep + (join_with(parts.skip(1), sep) + sep + last) =~= (parts[0] + sep
            + join_with(parts.skip(1), sep)) + sep + last);
    }
}

/// Whether `pat` occurs in `s` at position `i`, by character comparison.
pub fn match_at(s: &str, pat: &str, i: usize) -> (b: bool)
    requires
        i + pat@.len() <= s@.len(),
    ensures
        b == matches_at(s@, pat@, i as int),
{
    let pat_len = pat.unicode_len();
    let s_len = s.unicode_len();
    let mut j: usize = 0;
    while j < pat_len
        invariant
            j <= pat_len,
            pat_len == pat@.len(),
            s_len == s@.len(),
            i + pat_len <= s_len,
            forall|k: int| 0 <= k < j ==> s@[i + k] == pat@[k],
        decreases pat_len - j,
    {
        if s.get_char(i + j) != pat.get_char(j) {
            proof {
                assert(s@.subrange(i as int, i + pat@.len())[j as int] == s@[i + j]);
            }
            return false;
        }
        j += 1;
    }
    proof {
        assert(s@.subrange(i as int, i + pat@.len()) =~= pat@);
    }
    true
}

/// Whether the character `c` occurs in `s`.
pub fn contains_char(s: &str, c: char) -> (b: bool)
    ensures
        b == s@.contains(c),
{
    let s_len = s.unicode_len();
    let mut i: usize = 0;
    while i < s_len
        invariant
            i <= s_len,
            s_len == s@.len(),
            forall|k: int| 0 <= k < i ==> s@[k] != c,
        decreases s_len - i,
    {
        if s.get_char(i) == c {
            return true;
        }
        i += 1;
    }
    false
}

/// True when `prefix` begins `s`.
pub open spec fn starts_with_spec(s: Seq<char>, prefix: Seq<char>) -> bool {
    prefix.len() <= s.len() && s.subrange(0, prefix.len() as int) == prefix
}

/// Whether `s` starts with `prefix`.
pub fn starts_with(s: &str, prefix: &str) -> (b: bool)
    ensures
        b == starts_with_spec(s@, prefix@),
{
    let s_len = s.unicode_len();
    let p_len = prefix.unicode_len();
    if p_len > s_len {
        return false;
    }
    match_at(s, prefix, 0)
}

/// Whether `s` ends with `suffix`.
pub fn ends_with(s: &str, suffix: &str) -> (b: bool)
    ensures
        b == ends_with_spec(s@, suffix@),
{
    let s_len = s.unicode_len();
    let x_len = suffix.unicode_len();
    if x_len > s_len {
        return false;
    }
    let b = match_at(s, suffix, s_len - x_len);
    proof {
        assert(s@.subrange(s@.len() - suffix@.len(), s@.len() as int) == s@.subrange(
            (s_len - x_len) as int,
            (s_len - x_len) + suffix@.len(),
        ));
    }
    b
}

/// Replace every occurrence of `pat` in `s` by `to`, leftmost-first and
/// non-overlapping.
pub fn replace_all(s: &str, pat: &str, to: &str) -> (r: String)
    ensures
        r@ == replace_all_spec(s@, pat@, to@),
{
    let s_len = s.unicode_len();
    let pat_len = pat.unicode_len();
    if pat_len == 0 {
        return String::from_str(s);
    }
    let mut out = String::new();
    let mut i: usize = 0;
    proof {
        assert(s@.skip(0) =~= s@);
    }
    while i < s_len
        invariant
            i <= s_len,
            s_len == s@.len(),
            pat_len == pat@.len(),
            pat_len >= 1,
            replace_all_spec(s@, pat@, to@) == out@ + replace_all_spec(
                s@.skip(i as int),
                pat@,
                to@,
            ),
        decreases s_len - i,
    {
        if pat_len <= s_len - i && match_at(s, pat, i) {
            out.append(to);
            proof {
                assert(s@.skip(i as int).subrange(0, pat@.len() as int) =~= s@.subrange(
                    i as int,
                    i + pat@.len(),
                ));
                assert(s@.skip(i as int).skip(pat@.len() as int) =~= s@.skip(i + pat@.len()));
            }
            i += pat_len;
        } else {
            let ch = s.substring_char(i, i + 1);
            out.append(ch);
            proof {
                if pat@.len() <= s@.len() - i {
                    assert(s@.skip(i as int).subrange(0, pat@.len() as int) =~= s@.subrange(
                        i as int,
                        i + pat@.len(),
                    ));
                    assert(seq![s@.skip(i as int)[0]] =~= s@.subrange(i as int, i + 1));
                    assert(s@.skip(i as int).skip(1) =~= s@.skip(i + 1));
                } else {
                    assert(s@.skip(i as int) =~= s@.subrange(i as int, i + 1) + s@.skip(i + 1));
                    assert(replace_all_spec(s@.skip(i as int), pat@, to@) == s@.skip(i as int));
                    assert(replace_all_spec(s@.skip(i + 1), pat@, to@) == s@.skip(i + 1));
                }
            }
            i += 1;
        }
    }
    proof {
        assert(s@.skip(s_len as int) =~= Seq::<char>::empty());
        assert(out@ + Seq::<char>::empty() =~= out@);
    }
    out
}

/// The final path component of `p`: the suffix after the last `/`, the
/// whole of `p` when it has no separator, and empty when `p` ends in one.
pub open spec fn base_name_spec(p: Seq<char>) -> Seq<char>
    decreases p.len(),
{
    if p.len() == 0 {
        p
    } else if p[p.len() - 1] == '/' {
        Seq::empty()
    } else {
        base_name_spec(p.take(p.len() - 1)) + seq![p[p.len() - 1]]
    }
}

/// A suffix of `p` that follows a separator (or starts `p`) and holds no
/// separator itself is `p`'s final path component.
pub proof fn lemma_base_name_suffix(p: Seq<char>, j: int)
    requires
        0 <= j <= p.len(),
        forall|k: int| j <= k < p.len() ==> p[k] != '/',
        j == 0 || p[j - 1] == '/',
    ensures
        base_name_spec(p) == p.subrange(j, p.len() as int),
    decreases p.len(),
{
    if p.len() == 0 {
        assert(base_name_spec(p) =~= p.subrange(j, p.len() as int));
    } else if p[p.len() - 1] == '/' {
        assert(j == p.len());
        assert(base_name_spec(p) =~= p.subrange(j, p.len() as int));
    } else {
        assert(j < p.len());
        let q = p.take(p.len() - 1);
        lemma_base_name_suffix(q, j);
        assert(q.subrange(j, q.len() as int) + seq![p[p.len() - 1]] =~= p.subrange(
            j,
            p.len() as int,
        ));
    }
}

/// `s` split on the occurrences of `pat`, leftmost-first and
/// non-overlapping: the segments between occurrences, in order.  Joining
/// them back with `pat` restores `s`; joining them with another string
/// replaces every occurrence.
pub open spec fn split_on_spec(s: Seq<char>, pat: Seq<char>) -> Seq<Seq<char>>
    decreases s.len(),
{
    if pat.len() == 0 || s.len() < pat.len() {
        seq![s]
    } else if s.subrange(0, pat.len() as int) == pat {
        seq![Seq::<char>::empty()] + split_on_spec(s.skip(pat.len() as int), pat)
    } else {
        let rest = split_on_spec(s.skip(1), pat);
        seq![seq![s[0]] + rest[0]] + rest.skip(1)
    }
}

/// A split always has at least one segment.
pub proof fn lemma_split_nonempty(s: Seq<char>, pat: Seq<char>)
    ensures
        split_on_spec(s, pat).len() >= 1,
    decreases s.len(),
{
    if pat.len() == 0 || s.len() < pat.len() {
    } else if s.subrange(0, pat.len() as int) == pat {
        lemma_split_nonempty(s.skip(pat.len() as int), pat);
    } else {
        lemma_split_nonempty(s.skip(1), pat);
    }
}

/// The split is faithful: joining the segments with the pattern itself
/// restores the original string.
pub proof fn lemma_split_join(s: Seq<char>, pat: Seq<char>)
    ensures
        join_with(split_on_spec(s, pat), pat) == s,
    decreases s.len(),
{
    if pat.len() == 0 || s.len() < pat.len() {
    } else if s.subrange(0, pat.len() as int) == pat {
        let tail = s.skip(pat.len() as int);
        lemma_split_join(tail, pat);
        lemma_split_nonempty(tail, pat);
        let parts = seq![Seq::<char>::empty()] + split_on_spec(tail, pat);
        assert(parts.skip(1) =~= split_on_spec(tail, pat));
        assert(join_with(parts, pat) == Seq::<char>::empty() + pat + join_with(
            split_on_spec(tail, pat),
            pat,
        ));
        assert(Seq::<char>::empty() + pat + tail =~= s);
    } else {
        let rest = split_on_spec(s.skip(1), pat);
        lemma_split_join(s.skip(1), pat);
        lemma_split_nonempty(s.skip(1), pat);
        let parts = seq![seq![s[0]] + rest[0]] + rest.skip(1);
        if rest.len() == 1 {
            assert(parts.len() == 1);
            assert(join_with(rest, pat) == rest[0]);
            assert(join_with(parts, pat) == seq![s[0]] + rest[0]);
            assert(seq![s[0]] + s.skip(1) =~= s);
        } else {
            assert(parts.skip(1) =~= rest.skip(1));
            assert(join_with(parts, pat) == (seq![s[0]] + rest[0]) + pat + join_with(
                rest.skip(1),
                pat,
            ));
            assert(join_with(rest, pat) == rest[0] + pat + join_with(rest.skip(1), pat));
            assert((seq![s[0]] + rest[0]) + pat + join_with(rest.skip(1), pat) =~= seq![s[0]] + (
            rest[0] + pat + join_with(rest.skip(1), pat)));
            assert(seq![s[0]] + s.skip(1) =~= s);
        }
    }
}

/// The first segment of a split is a prefix of the string.
pub proof fn lemma_split_first_prefix(s: Seq<char>, pat: Seq<char>)
    ensures
        split_on_spec(s, pat)[0].len() <= s.len(),
        split_on_spec(s, pat)[0] == s.take(split_on_spec(s, pat)[0].len() as int),
    decreases s.len(),
{
    if pat.len() == 0 || s.len() < pat.len() {
        assert(s.take(s.len() as int) =~= s);
    } else if s.subrange(0, pat.len() as int) == pat {
        assert(s.take(0) =~= Seq::<char>::empty());
    } else {
        lemma_split_first_prefix(s.skip(1), pat);
        let rest = split_on_spec(s.skip(1), pat);
        assert(seq![s[0]] + rest[0] =~= s.take(rest[0].len() as int + 1));
    }
}

/// No occurrence of the pattern begins inside the first segment.
pub proof fn lemma_split_first_clean(s: Seq<char>, pat: Seq<char>)
    requires
        pat.len() > 0,
    ensures
        forall|j: int|
            0 <= j && j + pat.len() <= split_on_spec(s, pat)[0].len() ==> !matches_at(s, pat, j),
    decreases s.len(),
{
    if s.len() < pat.len() {
    } else if s.subrange(0, pat.len() as int) == pat {
    } else {
        lemma_split_first_clean(s.skip(1), pat);
        let rest = split_on_spec(s.skip(1), pat);
        let first = seq![s[0]] + rest[0];
        assert(split_on_spec(s, pat)[0] == first);
        assert forall|j: int| 0 <= j && j + pat.len() <= first.len() implies !matches_at(
            s,
            pat,
            j,
        ) by {
            if j == 0 {
                assert(!matches_at(s, pat, 0));
            } else {
                assert(!matches_at(s.skip(1), pat, j - 1));
                if matches_at(s, pat, j) {
                    assert(s.skip(1).subrange(j - 1, j - 1 + pat.len()) =~= s.subrange(
                        j,
                        j + pat.len(),
                    ));
                }
            }
        }
    }
}

/// No segment of a split holds an occurrence of the pattern.
pub proof fn lemma_split_segments_clean(s: Seq<char>, pat: Seq<char>)
    requires
        pat.len() > 0,
    ensures
        forall|i: int|
            0 <= i < split_on_spec(s, pat).len() ==> !contains_seq(
                #[trigger] split_on_spec(s, pat)[i],
                pat,
            ),
    decreases s.len(),
{
    let parts = split_on_spec(s, pat);
    assert forall|i: int| 0 <= i < parts.len() implies !contains_seq(#[trigger] parts[i], pat) by {
        if i == 0 {
            lemma_split_first_prefix(s, pat);
            lemma_split_first_clean(s, pat);
            if contains_seq(parts[0], pat) {
                let j = choose|j: int| matches_at(parts[0], pat, j);
                assert(parts[0].subrange(j, j + pat.len()) =~= s.subrange(j, j + pat.len()));
                assert(matches_at(s, pat, j));
            }
        } else {
            if s.len() < pat.len() {
            } else if s.subrange(0, pat.len() as int) == pat {
                lemma_split_segments_clean(s.skip(pat.len() as int), pat);
                assert(parts[i] == split_on_spec(s.skip(pat.len() as int), pat)[i - 1]);
            } else {
                lemma_split_segments_clean(s.skip(1), pat);
                let rest = split_on_spec(s.skip(1), pat);
                assert(parts[i] == rest.skip(1)[i - 1]);
                assert(rest.skip(1)[i - 1] == rest[i]);
            }
        }
    }
}

/// Replacement, segment by segment: replacing every occurrence of `pat`
/// by `to` yields exactly the split's segments joined with `to`.
pub proof fn lemma_replace_is_split_join(s: Seq<char>, pat: Seq<char>, to: Seq<char>)
    ensures
        replace_all_spec(s, pat, to) == join_with(split_on_spec(s, pat), to),
    decreases s.len(),
{
    if pat.len() == 0 || s.len() < pat.len() {
    } else if s.subrange(0, pat.len() as int) == pat {
        let tail = s.skip(pat.len() as int);
        lemma_replace_is_split_join(tail, pat, to);
        lemma_split_nonempty(tail, pat);
        let parts = seq![Seq::<char>::empty()] + split_on_spec(tail, pat);
        assert(parts.skip(1) =~= split_on_spec(tail, pat));
        assert(join_with(parts, to) == Seq::<char>::empty() + to + join_with(
            split_on_spec(tail, pat),
            to,
        ));
        assert(Seq::<char>::empty() + to + replace_all_spec(tail, pat, to) =~= to
            + replace_all_spec(tail, pat, to));
    } else {
        let rest = split_on_spec(s.skip(1), pat);
        lemma_replace_is_split_join(s.skip(1), pat, to);
        lemma_split_nonempty(s.skip(1), pat);
        let parts = seq![seq![s[0]] + rest[0]] + rest.skip(1);
        if rest.len() == 1 {
            assert(join_with(rest, to) == rest[0]);
            assert(join_with(parts, to) == seq![s[0]] + rest[0]);
        } else {
            assert(parts.skip(1) =~= rest.skip(1));
            assert(join_with(parts, to) == (seq![s[0]] + rest[0]) + to + join_with(
                rest.skip(1),
                to,
            ));
            assert(join_with(rest, to) == rest[0] + to + join_with(rest.skip(1), to));
            assert((seq![s[0]] + rest[0]) + to + join_with(rest.skip(1), to) =~= seq![s[0]] + (
            rest[0] + to + join_with(rest.skip(1), to)));
        }
    }
}

/// Replacement replaces every occurrence: the string is exactly its
/// pattern-free segments joined by the pattern, and the replacement is
/// exactly those segments joined by the substitute.
pub proof fn lemma_replace_all_every_occurrence(s: Seq<char>, pat: Seq<char>, to: Seq<char>)
    requires
        pat.len() > 0,
    ensures
        ({
            let parts = split_on_spec(s, pat);
            &&& join_with(parts, pat) == s
            &&& forall|i: int| 0 <= i < parts.len() ==> !contains_seq(#[trigger] parts[i], pat)
            &&& replace_all_spec(s, pat, to) == join_with(parts, to)
        }),
{
    lemma_split_join(s, pat);
    lemma_split_segments_clean(s, pat);
    lemma_replace_is_split_join(s, pat, to);
}

/// A final path component never holds a separator.
pub proof fn lemma_base_name_no_separator(p: Seq<char>)
    ensures
        forall|k: int| 0 <= k < base_name_spec(p).len() ==> base_name_spec(p)[k] != '/',
    decreases p.len(),
{
    if p.len() == 0 {
    } else if p[p.len() - 1] == '/' {
    } else {
        let q = p.take(p.len() - 1);
        lemma_base_name_no_separator(q);
        assert forall|k: int| 0 <= k < base_name_spec(p).len() implies base_name_spec(p)[k]
            != '/' by {
            if k < base_name_spec(q).len() {
                assert(base_name_spec(p)[k] == base_name_spec(q)[k]);
            } else {
                assert(base_name_spec(p)[k] == p[p.len() - 1]);
            }
        }
    }
}

/// The final component of `dir + '/' + name` is `name` itself when `name`
/// holds no separator.
pub proof fn lemma_base_name_join(dir: Seq<char>, name: Seq<char>)
    requires
        forall|k: int| 0 <= k < name.len() ==> name[k] != '/',
    ensures
        base_name_spec(dir + seq!['/'] + name) == name,
{
    let p = dir + seq!['/'] + name;
    let j = dir.len() + 1;
    assert(p[j - 1] == '/');
    assert(forall|k: int| j <= k < p.len() ==> p[k] == name[k - j] && p[k] != '/');
    lemma_base_name_suffix(p, j as int);
    assert(p.subrange(j as int, p.len() as int) =~= name);
}

/// The final path component of `path`.
pub fn base_name(path: &str) -> (r: String)
    ensures
        r@ == base_name_spec(path@),
{
    let len = path.unicode_len();
    let mut j: usize = len;
    while j > 0
        invariant_except_break
            j <= len,
            len == path@.len(),
            forall|k: int| j <= k < len ==> path@[k] != '/',
        ensures
            j <= len,
            len == path@.len(),
            forall|k: int| j <= k < len ==> path@[k] != '/',
            j == 0 || path@[j - 1] == '/',
        decreases j,
    {
        if path.get_char(j - 1) == '/' {
            break ;
        }
        j -= 1;
    }
    let r = String::from_str(path.substring_char(j, len));
    proof {
        lemma_base_name_suffix(path@, j as int);
    }
    r
}

/// Copy a vector of strings, value for value.
pub fn clone_strings(v: &Vec<String>) -> (r: Vec<String>)
    ensures
        r.deep_view() == v.deep_view(),
{
    let mut r: Vec<String> = Vec::new();
    let mut i: usize = 0;
    while i < v.len()
        invariant
            i <= v.len(),
            r@.len() == i as int,
            forall|k: int| 0 <= k < i ==> r@[k]@ == v@[k]@,
        decreases v.len() - i,
    {
        let s = v[i].clone();
        assert(s@ == v@[i as int]@);
        r.push(s);
        i += 1;
    }
    proof {
        let dv1 = r.deep_view();
        let dv2 = v.deep_view();
        assert forall|k: int| 0 <= k < dv1.len() implies dv1[k] == dv2[k] by {
            assert(dv1[k] == r@[k]@);
            assert(dv2[k] == v@[k]@);
        }
        assert(dv1 =~= dv2);
    }
    r
}

/// `dir` and `name` joined by one path separator.
pub fn path_join(dir: &str, name: &str) -> (r: String)
    ensures
        r@ == dir@ + seq!['/'] + name@,
{
    proof {
        reveal_strlit("/");
    }
    let mut out = String::from_str(dir);
    out.append("/");
    out.append(name);
    proof {
        assert(dir@ + "/"@ + name@ =~= dir@ + seq!['/'] + name@);
    }
    out
}

/// `parts` joined by single newlines.
pub fn join_newline(parts: &Vec<String>) -> (r: String)
    ensures
        r@ == join_with(parts.deep_view(), seq!['\n']),
{
    let mut out = String::new();
    let mut i: usize = 0;
    while i < parts.len()
        invariant
            i <= parts.len(),
            out@ == join_with(parts.deep_view().take(i as int), seq!['\n']),
        decreases parts.len() - i,
    {
        if i > 0 {
            out.append("\n");
            proof {
                reveal_strlit("\n");
                assert(out@ =~= join_with(parts.deep_view().take(i as int), seq!['\n'])
                    + seq!['\n']);
            }
        }
        out.append(parts[i].as_str());
        proof {
            let dv = parts.deep_view();
            assert(dv.take(i as int).push(dv[i as int]) =~= dv.take(i + 1));
            lemma_join_push(dv.take(i as int), seq!['\n'], dv[i as int]);
            assert(parts[i as int]@ == dv[i as int]);
        }
        i += 1;
    }
    proof {
        assert(parts.deep_view().take(parts.len() as int) =~= parts.deep_view());
    }
    out
}

} // verus!
