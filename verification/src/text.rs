//! Character-level text operations on `&str` and `String`, specified over
//! their views as `Seq<char>`.

use vstd::prelude::*;

verus! {

/// Appends one character to a string (`String::push`). Its documentation
/// says that the character is added at the end; that is what is claimed.
#[verifier::external_body]
fn push_char(s: &mut String, c: char)
    ensures
        final(s)@ == old(s)@.push(c),
{
    s.push(c);
}

/// The characters of `s`, in order.
pub fn to_chars(s: &str) -> (r: Vec<char>)
    ensures
        r@ == s@,
{
    let mut r: Vec<char> = Vec::new();
    for c in it: s.chars()
        invariant
            r@ == it.seq().take(it.index() as int),
    {
        r.push(c);
    }
    r
}

/// A string made of the characters `cs[from..to]`.
pub fn from_chars(cs: &Vec<char>, from: usize, to: usize) -> (r: String)
    requires
        from <= to <= cs.len(),
    ensures
        r@ == cs@.subrange(from as int, to as int),
{
    let mut r = String::new();
    let mut i = from;
    while i < to
        invariant
            from <= i <= to <= cs.len(),
            r@ == cs@.subrange(from as int, i as int),
        decreases to - i,
    {
        push_char(&mut r, cs[i]);
        i = i + 1;
    }
    r
}

} // verus!

verus! {

/// `p` is a prefix of `s`.
pub open spec fn has_prefix(s: Seq<char>, p: Seq<char>) -> bool {
    p.len() <= s.len() && s.take(p.len() as int) == p
}

/// The index of the last occurrence of `c` in `s`, or -1 where there is none.
pub open spec fn last_index_of(s: Seq<char>, c: char) -> int
    decreases s.len(),
{
    if s.len() == 0 {
        -1
    } else if s.last() == c {
        s.len() - 1
    } else {
        last_index_of(s.drop_last(), c)
    }
}

/// The part of `s` after the last `c`; all of `s` where `c` does not occur.
pub open spec fn after_last(s: Seq<char>, c: char) -> Seq<char> {
    s.skip(last_index_of(s, c) + 1)
}

/// Every occurrence of `pat` in `s`, taken from left to right without
/// overlap, replaced by `rep` (what `str::replace` computes for a non-empty
/// pattern).
pub open spec fn replace_all(s: Seq<char>, pat: Seq<char>, rep: Seq<char>) -> Seq<char>
    decreases s.len(),
{
    if pat.len() == 0 || s.len() < pat.len() {
        s
    } else if s.take(pat.len() as int) == pat {
        rep + replace_all(s.skip(pat.len() as int), pat, rep)
    } else {
        seq![s[0]] + replace_all(s.skip(1), pat, rep)
    }
}

/// The extension of a file name: the text after its last `.`, where that
/// `.` is not the name's first character (the rule of `Path::extension`
/// for a file name; `..` names no file and has none).
pub open spec fn file_extension(name: Seq<char>) -> Option<Seq<char>> {
    let i = last_index_of(name, '.');
    if i <= 0 || name == seq!['.', '.'] {
        None
    } else {
        Some(name.skip(i + 1))
    }
}

/// A relative, separator-free `name` appended to the directory `dir` as
/// `PathBuf::push` does on Unix: a `/` is put between them unless `dir`
/// is empty or already ends with one.
pub open spec fn join_path(dir: Seq<char>, name: Seq<char>) -> Seq<char> {
    if dir.len() == 0 {
        name
    } else if dir.last() == '/' {
        dir + name
    } else {
        dir + seq!['/'] + name
    }
}

/// Where `last_index_of` points: at the last `c`, or -1 where none occurs.
pub proof fn lemma_last_index_bounds(s: Seq<char>, c: char)
    ensures
        -1 <= last_index_of(s, c) < s.len(),
        last_index_of(s, c) >= 0 ==> s[last_index_of(s, c)] == c,
        forall|j: int| last_index_of(s, c) < j < s.len() ==> s[j] != c,
    decreases s.len(),
{
    if s.len() > 0 && s.last() != c {
        let t = s.drop_last();
        lemma_last_index_bounds(t, c);
        assert forall|j: int| last_index_of(s, c) < j < s.len() implies s[j] != c by {
            if j < s.len() - 1 {
                assert(s[j] == t[j]);
            }
        }
    }
}

/// Whether `pat` occurs in `s` at position `i`.
fn occurs_at(s: &Vec<char>, i: usize, pat: &Vec<char>) -> (r: bool)
    requires
        i <= s.len(),
    ensures
        r == (i + pat.len() <= s.len() && s@.subrange(i as int, i + pat.len()) == pat@),
{
    if pat.len() > s.len() - i {
        return false;
    }
    let mut k: usize = 0;
    while k < pat.len()
        invariant
            i + pat.len() <= s.len(),
            k <= pat.len(),
            forall|j: int| 0 <= j < k ==> s@[i + j] == pat@[j],
        decreases pat.len() - k,
    {
        if s[i + k] != pat[k] {
            assert(s@.subrange(i as int, i + pat.len())[k as int] != pat@[k as int]);
            return false;
        }
        k = k + 1;
    }
    assert(s@.subrange(i as int, i + pat.len()) =~= pat@);
    true
}

/// `s` with every occurrence of the non-empty `pat` replaced by `rep`,
/// from left to right (`str::replace`).
pub fn replace_all_str(s: &str, pat: &str, rep: &str) -> (r: String)
    requires
        pat@.len() > 0,
    ensures
        r@ == replace_all(s@, pat@, rep@),
{
    let sv = to_chars(s);
    let pv = to_chars(pat);
    let n = sv.len();
    let plen = pv.len();
    let mut r = String::new();
    let mut i: usize = 0;
    assert(sv@.skip(0) =~= sv@);
    while i < n
        invariant
            n == sv.len(),
            plen == pv.len(),
            sv@ == s@,
            pv@ == pat@,
            plen > 0,
            i <= n,
            r@ + replace_all(sv@.skip(i as int), pv@, rep@) == replace_all(sv@, pv@, rep@),
        decreases n - i,
    {
        let ghost rest = sv@.skip(i as int);
        if occurs_at(&sv, i, &pv) {
            assert(rest.take(plen as int) =~= sv@.subrange(i as int, i + plen));
            assert(rest.skip(plen as int) =~= sv@.skip(i + plen));
            r.append(rep);
            i = i + plen;
        } else {
            assert(rest.len() < plen || rest.take(plen as int) != pv@) by {
                if rest.len() >= plen {
                    assert(rest.take(plen as int) =~= sv@.subrange(i as int, i + plen));
                }
            }
            assert(rest.skip(1) =~= sv@.skip(i + 1));
            assert(rest[0] == sv@[i as int]);
            proof {
                if rest.len() < plen {
                    assert(rest.skip(1).len() < plen);
                    assert(rest =~= seq![rest[0]] + rest.skip(1));
                }
            }
            push_char(&mut r, sv[i]);
            i = i + 1;
        }
        assert(r@ + replace_all(sv@.skip(i as int), pv@, rep@) == replace_all(sv@, pv@, rep@));
    }
    assert(sv@.skip(n as int) =~= Seq::<char>::empty());
    r
}

/// Where `c` last occurs in `s`, if it does.
pub fn find_last(s: &Vec<char>, c: char) -> (r: Option<usize>)
    ensures
        match r {
            Some(i) => i == last_index_of(s@, c) && i < s.len(),
            None => last_index_of(s@, c) == -1,
        },
{
    proof {
        lemma_last_index_bounds(s@, c);
    }
    let mut i = s.len();
    assert(s@.take(i as int) =~= s@);
    while i > 0
        invariant
            i <= s.len(),
            last_index_of(s@, c) == last_index_of(s@.take(i as int), c),
        decreases i,
    {
        let ghost t = s@.take(i as int);
        assert(t.last() == s@[i - 1]);
        if s[i - 1] == c {
            return Some(i - 1);
        }
        assert(t.drop_last() =~= s@.take(i - 1));
        i = i - 1;
    }
    assert(s@.take(0) =~= Seq::<char>::empty());
    None
}

/// The extension of the file name `name` (see [`file_extension`]).
pub fn extension_of(name: &str) -> (r: Option<String>)
    ensures
        match r {
            Some(e) => file_extension(name@) == Some(e@),
            None => file_extension(name@) is None,
        },
{
    let cs = to_chars(name);
    let dots = cs.len() == 2 && cs[0] == '.' && cs[1] == '.';
    proof {
        if cs.len() == 2 {
            assert(dots == (name@ =~= seq!['.', '.']));
        } else {
            assert(name@.len() != 2);
        }
    }
    match find_last(&cs, '.') {
        Some(i) => {
            if i == 0 || dots {
                None
            } else {
                let e = from_chars(&cs, i + 1, cs.len());
                assert(e@ =~= name@.skip(i + 1));
                Some(e)
            }
        },
        None => None,
    }
}

/// `name` appended to the directory `dir` (see [`join_path`]).
pub fn join_path_str(dir: &str, name: &str) -> (r: String)
    ensures
        r@ == join_path(dir@, name@),
{
    let dv = to_chars(dir);
    if dv.len() == 0 {
        name.to_string()
    } else if dv[dv.len() - 1] == '/' {
        let r = dir.to_string().concat(name);
        r
    } else {
        let r = dir.to_string().concat("/").concat(name);
        proof {
            reveal_strlit("/");
        }
        r
    }
}

} // verus!

verus! {

/// `c` is one of the ASCII digits `0`..`9`.
pub open spec fn is_digit(c: char) -> bool {
    '0' <= c && c <= '9'
}

/// The number that the decimal digits `ds` denote.
pub open spec fn decimal_value(ds: Seq<char>) -> nat
    decreases ds.len(),
{
    if ds.len() == 0 {
        0
    } else {
        10 * decimal_value(ds.drop_last()) + ((ds.last() as int - '0' as int) as nat)
    }
}

/// `s` without a leading `+`, if it has one.
pub open spec fn unsigned_digits(s: Seq<char>) -> Seq<char> {
    if s.len() > 0 && s[0] == '+' {
        s.skip(1)
    } else {
        s
    }
}

/// Every character of `ds` is an ASCII digit.
pub open spec fn all_digits(ds: Seq<char>) -> bool {
    forall|i: int| 0 <= i < ds.len() ==> is_digit(#[trigger] ds[i])
}

/// What `str::parse::<u32>` gives: an optional `+`, then one or more ASCII
/// digits whose value fits in a `u32`; `None` for anything else.
pub open spec fn parse_u32(s: Seq<char>) -> Option<u32> {
    let ds = unsigned_digits(s);
    if ds.len() > 0 && all_digits(ds) && decimal_value(ds) <= u32::MAX {
        Some(decimal_value(ds) as u32)
    } else {
        None
    }
}

proof fn lemma_decimal_step(ds: Seq<char>, i: int)
    requires
        0 <= i < ds.len(),
    ensures
        decimal_value(ds.take(i + 1)) == 10 * decimal_value(ds.take(i)) + ((ds[i] as int
            - '0' as int) as nat),
{
    assert(ds.take(i + 1).drop_last() =~= ds.take(i));
}

proof fn lemma_decimal_grows(ds: Seq<char>, i: int, j: int)
    requires
        0 <= i <= j <= ds.len(),
        forall|k: int| 0 <= k < ds.len() ==> is_digit(#[trigger] ds[k]),
    ensures
        decimal_value(ds.take(i)) <= decimal_value(ds.take(j)),
    decreases j - i,
{
    if i < j {
        lemma_decimal_grows(ds, i, j - 1);
        lemma_decimal_step(ds, j - 1);
        assert(is_digit(ds[j - 1]));
    }
}

/// The number written in `s` in decimal, as `str::parse::<u32>` reads it.
pub fn parse_decimal_u32(s: &str) -> (r: Option<u32>)
    ensures
        r == parse_u32(s@),
{
    let cs = to_chars(s);
    let start: usize = if cs.len() > 0 && cs[0] == '+' { 1 } else { 0 };
    let ghost ds = unsigned_digits(s@);
    assert(ds =~= cs@.skip(start as int));
    if start >= cs.len() {
        return None;
    }
    let mut acc: u64 = 0;
    let mut i = start;
    assert(ds.take(0) =~= Seq::<char>::empty());
    while i < cs.len()
        invariant
            start <= i <= cs.len(),
            ds == cs@.skip(start as int),
            ds == unsigned_digits(s@),
            acc <= u32::MAX,
            acc == decimal_value(ds.take(i - start)),
            forall|k: int| 0 <= k < i - start ==> is_digit(#[trigger] ds[k]),
        decreases cs.len() - i,
    {
        let c = cs[i];
        if !('0' <= c && c <= '9') {
            assert(!is_digit(ds[i - start]));
            assert(!all_digits(ds));
            return None;
        }
        proof {
            lemma_decimal_step(ds, i - start);
        }
        let d = (c as u32 - '0' as u32) as u64;
        acc = acc * 10 + d;
        i = i + 1;
        if acc > 0xffff_ffff {
            proof {
                if all_digits(ds) {
                    lemma_decimal_grows(ds, i - start, ds.len() as int);
                    assert(ds.take(ds.len() as int) =~= ds);
                }
            }
            return None;
        }
    }
    assert(ds.take(ds.len() as int) =~= ds);
    Some(acc as u32)
}

} // verus!

verus! {

/// Replacing a pattern that does not occur leaves the text as it is.
pub proof fn lemma_replace_absent(s: Seq<char>, pat: Seq<char>, rep: Seq<char>)
    requires
        pat.len() > 0,
        forall|i: int| 0 <= i <= s.len() - pat.len() ==> !has_prefix(#[trigger] s.skip(i), pat),
    ensures
        replace_all(s, pat, rep) == s,
    decreases s.len(),
{
    if s.len() >= pat.len() {
        assert(s.skip(0) =~= s);
        assert(!has_prefix(s.skip(0), pat));
        let t = s.skip(1);
        assert forall|i: int| 0 <= i <= t.len() - pat.len() implies !has_prefix(#[trigger] t.skip(i), pat) by {
            assert(t.skip(i) =~= s.skip(i + 1));
        }
        lemma_replace_absent(t, pat, rep);
        assert(s.take(pat.len() as int) != pat);
        assert(replace_all(s, pat, rep) == seq![s[0]] + replace_all(s.skip(1), pat, rep));
        assert(seq![s[0]] + t =~= s);
    }
}

/// A file name made of a stem without `.`, a `.` and an extension without
/// `.` has that extension, and taking `.` + extension out of it leaves the
/// stem.
pub proof fn lemma_stem_and_extension(stem: Seq<char>, ext: Seq<char>)
    requires
        stem.len() > 0,
        !stem.contains('.'),
        !ext.contains('.'),
    ensures
        file_extension(stem + seq!['.'] + ext) == Some(ext),
        replace_all(stem + seq!['.'] + ext, seq!['.'] + ext, Seq::empty()) == stem,
{
    let name = stem + seq!['.'] + ext;
    lemma_last_index_bounds(name, '.');
    let i = last_index_of(name, '.');
    assert(name[stem.len() as int] == '.');
    assert forall|j: int| stem.len() < j < name.len() implies name[j] != '.' by {
        assert(name[j] == ext[j - stem.len() - 1]);
    }
    assert forall|j: int| 0 <= j < stem.len() implies name[j] != '.' by {
        assert(name[j] == stem[j]);
    }
    assert(i == stem.len());
    assert(name.skip(i + 1) =~= ext);
    assert(name != seq!['.', '.']) by {
        if name == seq!['.', '.'] {
            assert(name[0] == '.');
            assert(name[0] == stem[0]);
        }
    }
    lemma_strip_suffix_pattern(stem, seq!['.'] + ext);
    assert(stem + seq!['.'] + ext =~= stem + (seq!['.'] + ext));
}

proof fn lemma_strip_suffix_pattern(stem: Seq<char>, pat: Seq<char>)
    requires
        pat.len() > 0,
        pat[0] == '.',
        !stem.contains('.'),
    ensures
        replace_all(stem + pat, pat, Seq::empty()) == stem,
    decreases stem.len(),
{
    let s = stem + pat;
    if stem.len() == 0 {
        assert(s =~= pat);
        assert(s.take(pat.len() as int) =~= pat);
        assert(s.skip(pat.len() as int) =~= Seq::<char>::empty());
        assert(replace_all(s, pat, Seq::empty()) == Seq::<char>::empty() + replace_all(
            s.skip(pat.len() as int),
            pat,
            Seq::empty(),
        ));
        assert(replace_all(Seq::<char>::empty(), pat, Seq::empty()) == Seq::<char>::empty());
        assert(Seq::<char>::empty() + Seq::<char>::empty() =~= Seq::<char>::empty());
    } else {
        assert(s[0] == stem[0]);
        assert(s.take(pat.len() as int)[0] == s[0]);
        assert(s.take(pat.len() as int) != pat);
        let rest = stem.skip(1);
        assert(!rest.contains('.')) by {
            if rest.contains('.') {
                let k = choose|k: int| 0 <= k < rest.len() && rest[k] == '.';
                assert(stem[k + 1] == '.');
            }
        }
        lemma_strip_suffix_pattern(rest, pat);
        assert(s.skip(1) =~= rest + pat);
        assert(seq![stem[0]] + rest =~= stem);
    }
}

/// A name joined to a directory ends with the name and starts with the
/// directory, with exactly one `/` between them where the directory is not
/// empty (the directory's own trailing `/`, or one that is added).
pub proof fn lemma_join_path_parts(dir: Seq<char>, name: Seq<char>)
    ensures
        dir.len() == 0 ==> join_path(dir, name) == name,
        dir.len() > 0 && dir.last() == '/' ==> join_path(dir, name) == dir + name,
        dir.len() > 0 && dir.last() != '/' ==> join_path(dir, name) == dir + seq!['/'] + name,
        join_path(dir, name).len() >= dir.len() + name.len(),
        join_path(dir, name).take(dir.len() as int) == dir,
        join_path(dir, name).skip(join_path(dir, name).len() - name.len()) == name,
{
    let j = join_path(dir, name);
    if dir.len() == 0 {
        assert(j.take(0) =~= dir);
        assert(j.skip(0) =~= name);
    } else if dir.last() == '/' {
        assert(j.take(dir.len() as int) =~= dir);
        assert(j.skip(dir.len() as int) =~= name);
    } else {
        assert(j.take(dir.len() as int) =~= dir);
        assert(j.skip(dir.len() as int + 1) =~= name);
    }
}

/// A leading `+` does not change the number that a text is read as.
pub proof fn lemma_parse_plus_sign(ds: Seq<char>)
    requires
        ds.len() > 0,
        ds[0] != '+',
    ensures
        parse_u32(seq!['+'] + ds) == parse_u32(ds),
{
    assert((seq!['+'] + ds).skip(1) =~= ds);
}

} // verus!

verus! {

proof fn lemma_strip_only_suffix(s: Seq<char>, p: Seq<char>)
    requires
        p.len() > 0,
        forall|i: int| 0 <= i < s.len() ==> !has_prefix(#[trigger] (s + p).skip(i), p),
    ensures
        replace_all(s + p, p, Seq::empty()) == s,
    decreases s.len(),
{
    let t = s + p;
    if s.len() == 0 {
        assert(t =~= p);
        assert(t.take(p.len() as int) =~= p);
        assert(t.skip(p.len() as int) =~= Seq::<char>::empty());
        assert(replace_all(t, p, Seq::empty()) == Seq::<char>::empty() + replace_all(
            t.skip(p.len() as int),
            p,
            Seq::empty(),
        ));
        assert(replace_all(Seq::<char>::empty(), p, Seq::empty()) == Seq::<char>::empty());
        assert(Seq::<char>::empty() + Seq::<char>::empty() =~= Seq::<char>::empty());
        assert(s =~= Seq::<char>::empty());
    } else {
        assert(t.skip(0) =~= t);
        assert(!has_prefix(t.skip(0), p));
        assert(t.take(p.len() as int) != p);
        let rest = s.skip(1);
        assert forall|i: int| 0 <= i < rest.len() implies !has_prefix(#[trigger] (rest + p).skip(i), p) by {
            assert((rest + p).skip(i) =~= t.skip(i + 1));
            assert(!has_prefix(t.skip(i + 1), p));
        }
        lemma_strip_only_suffix(rest, p);
        assert(t.skip(1) =~= rest + p);
        assert(replace_all(t, p, Seq::empty()) == seq![t[0]] + replace_all(t.skip(1), p, Seq::empty()));
        assert(seq![s[0]] + rest =~= s);
    }
}

/// A stored file name `s + "." + e`, where the extension `e` has no `.` and
/// `"." + e` does not occur inside `s`, has the extension `e`, and taking
/// every `"." + e` out of it leaves exactly `s`: name and extension split
/// at the last `.`, and put back together they give the stored name.
pub proof fn lemma_extension_split(s: Seq<char>, e: Seq<char>)
    requires
        s.len() > 0,
        !e.contains('.'),
        !(s == seq!['.'] && e.len() == 0),
        forall|i: int|
            0 <= i && i + e.len() + 1 <= s.len() ==> #[trigger] s.subrange(i, i + e.len() + 1)
                != seq!['.'] + e,
    ensures
        file_extension(s + seq!['.'] + e) == Some(e),
        replace_all(s + seq!['.'] + e, seq!['.'] + e, Seq::empty()) == s,
{
    let name = s + seq!['.'] + e;
    let p = seq!['.'] + e;
    assert(name =~= s + p);
    lemma_last_index_bounds(name, '.');
    let li = last_index_of(name, '.');
    assert(name[s.len() as int] == '.');
    assert forall|j: int| s.len() < j < name.len() implies name[j] != '.' by {
        assert(name[j] == e[j - s.len() - 1]);
    }
    assert(li == s.len());
    assert(name.skip(li + 1) =~= e);
    assert(name != seq!['.', '.']) by {
        if name == seq!['.', '.'] {
            assert(s.len() == 1 && e.len() == 0);
            assert(s[0] == name[0]);
            assert(s =~= seq!['.']);
        }
    }
    assert forall|i: int| 0 <= i < s.len() implies !has_prefix(#[trigger] (s + p).skip(i), p) by {
        let t = (s + p).skip(i);
        if has_prefix(t, p) {
            if i + p.len() <= s.len() {
                assert(s.subrange(i, i + e.len() + 1) =~= t.take(p.len() as int));
            } else {
                let k = s.len() - i;
                assert(1 <= k < p.len());
                assert(t.take(p.len() as int)[k] == t[k]);
                assert(t[k] == (s + p)[s.len() as int]);
                assert((s + p)[s.len() as int] == '.');
                assert(p[k] == e[k - 1]);
            }
        }
    }
    lemma_strip_only_suffix(s, p);
}

} // verus!

verus! {

/// A single digit is read as its value.
pub proof fn lemma_parse_one_digit(c: char)
    requires
        is_digit(c),
    ensures
        parse_u32(seq![c]) == Some((c as int - '0' as int) as u32),
{
    assert(unsigned_digits(seq![c]) =~= seq![c]);
    assert(all_digits(seq![c]));
    assert(decimal_value(seq![c]) == 10 * decimal_value(seq![c].drop_last()) + ((c as int - '0' as int) as nat));
    assert(seq![c].drop_last() =~= Seq::<char>::empty());
}

/// Appending a digit to a number's digits multiplies it by ten and adds the
/// digit, as long as the result fits in a `u32`.
pub proof fn lemma_parse_append_digit(ds: Seq<char>, c: char)
    requires
        ds.len() > 0,
        ds[0] != '+',
        parse_u32(ds) is Some,
        is_digit(c),
        10 * (parse_u32(ds)->0 as int) + (c as int - '0' as int) <= u32::MAX,
    ensures
        parse_u32(ds.push(c)) == Some((10 * (parse_u32(ds)->0 as int) + (c as int - '0' as int)) as u32),
{
    let t = ds.push(c);
    assert(unsigned_digits(ds) == ds);
    assert(unsigned_digits(t) == t);
    assert(t.drop_last() =~= ds);
    assert(all_digits(t)) by {
        assert forall|i: int| 0 <= i < t.len() implies is_digit(#[trigger] t[i]) by {
            if i < ds.len() {
                assert(t[i] == ds[i]);
            }
        }
    }
}

/// A text with any character that is not a digit, after an optional
/// leading `+`, is no number.
pub proof fn lemma_parse_non_digit(s: Seq<char>, i: int)
    requires
        0 <= i < unsigned_digits(s).len(),
        !is_digit(unsigned_digits(s)[i]),
    ensures
        parse_u32(s) is None,
{
}

/// Nothing, or a lone `+`, is no number.
pub proof fn lemma_parse_empty()
    ensures
        parse_u32(Seq::empty()) is None,
        parse_u32(seq!['+']) is None,
{
    assert(seq!['+'].skip(1) =~= Seq::<char>::empty());
}

} // verus!
