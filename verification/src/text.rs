//! Character-level building blocks: decimal rendering and string assembly.

use vstd::prelude::*;

verus! {

/// `String::push` appends one character.
pub assume_specification[ String::push ](s: &mut String, ch: char)
    ensures
        final(s)@ == old(s)@.push(ch),
;

/// The ASCII digit for `d` (`0 <= d < 10`).
pub open spec fn digit_char(d: nat) -> char {
    if d == 0 { '0' } else if d == 1 { '1' } else if d == 2 { '2' } else if d == 3 { '3' }
    else if d == 4 { '4' } else if d == 5 { '5' } else if d == 6 { '6' } else if d == 7 { '7' }
    else if d == 8 { '8' } else { '9' }
}

/// Decimal rendering of a natural number, most significant digit first, with
/// no leading zeros (`0` renders as `"0"`).
pub open spec fn dec(n: nat) -> Seq<char>
    decreases n,
{
    if n < 10 {
        seq![digit_char(n)]
    } else {
        dec(n / 10).push(digit_char(n % 10))
    }
}

/// Decimal rendering of a signed integer: a leading `-` for negatives.
pub open spec fn dec_int(i: int) -> Seq<char> {
    if i < 0 {
        seq!['-'] + dec((-i) as nat)
    } else {
        dec(i as nat)
    }
}

fn digit_to_char(d: u64) -> (c: char)
    requires
        d < 10,
    ensures
        c == digit_char(d as nat),
{
    if d == 0 { '0' } else if d == 1 { '1' } else if d == 2 { '2' } else if d == 3 { '3' }
    else if d == 4 { '4' } else if d == 5 { '5' } else if d == 6 { '6' } else if d == 7 { '7' }
    else if d == 8 { '8' } else { '9' }
}

/// Append the decimal rendering of `n` to `out`.
pub fn push_dec(out: &mut String, n: u64)
    ensures
        final(out)@ == old(out)@ + dec(n as nat),
    decreases n,
{
    if n < 10 {
        out.push(digit_to_char(n));
        assert(old(out)@.push(digit_char(n as nat)) =~= old(out)@ + dec(n as nat));
    } else {
        push_dec(out, n / 10);
        out.push(digit_to_char(n % 10));
        assert(out@ =~= old(out)@ + dec(n as nat));
    }
}

/// Append the decimal rendering of the signed `i` to `out`.
pub fn push_dec_i64(out: &mut String, i: i64)
    ensures
        final(out)@ == old(out)@ + dec_int(i as int),
{
    if i < 0 {
        out.push('-');
        let m: u64 = if i == i64::MIN { 9223372036854775808u64 } else { (-i) as u64 };
        push_dec(out, m);
        assert(out@ =~= old(out)@ + dec_int(i as int));
    } else {
        push_dec(out, i as u64);
    }
}

/// The decimal rendering of `n` as a new string.
pub fn dec_string(n: u64) -> (s: String)
    ensures
        s@ == dec(n as nat),
{
    let mut s = String::new();
    push_dec(&mut s, n);
    assert(s@ =~= dec(n as nat));
    s
}

/// `(a + b) + c == a + (b + c)` on character sequences.
pub proof fn lemma_assoc(a: Seq<char>, b: Seq<char>, c: Seq<char>)
    ensures
        (a + b) + c == a + (b + c),
{
    assert((a + b) + c =~= a + (b + c));
}


/// The views of a sequence of strings.
pub open spec fn views(v: Seq<String>) -> Seq<Seq<char>> {
    v.map_values(|s: String| s@)
}

/// Append a message to a list of strings.
pub fn push_msg(v: &mut Vec<String>, m: String)
    ensures
        views(final(v)@) == views(old(v)@).push(m@),
{
    let ghost m_view = m@;
    v.push(m);
    assert(views(v@) =~= views(old(v)@).push(m_view));
}

/// Whether two strings hold the same characters.
pub fn str_eq(a: &str, b: &str) -> (res: bool)
    ensures
        res == (a@ == b@),
{
    let ac = chars_of(a);
    let bc = chars_of(b);
    if ac.len() != bc.len() {
        return false;
    }
    let n = ac.len();
    let mut i: usize = 0;
    while i < n
        invariant
            n == ac@.len(),
            n == bc@.len(),
            ac@ == a@,
            bc@ == b@,
            i <= n,
            forall|j: int| 0 <= j < i ==> ac@[j] == bc@[j],
        decreases n - i,
    {
        if ac[i] != bc[i] {
            return false;
        }
        i = i + 1;
    }
    assert(ac@ =~= bc@);
    true
}

/// The characters of `s`, in order.
pub fn chars_of(s: &str) -> (res: Vec<char>)
    ensures
        res@ == s@,
{
    broadcast use vstd::string::group_string_axioms;
    let mut res: Vec<char> = Vec::new();
    for c in it: s.chars()
        invariant
            it.seq() == s@,
            res@ == s@.take(it.index() as int),
    {
        res.push(c);
        proof {
            assert(res@ =~= s@.take(it.index() + 1));
        }
    }
    assert(s@.take(s@.len() as int) =~= s@);
    res
}

/// `s` followed by `t`, as a new string.
pub fn concat2(s: &str, t: &str) -> (res: String)
    ensures
        res@ == s@ + t@,
{
    let mut r = String::from_str(s);
    r.append(t);
    r
}

/// `s + t + u`, as a new string.
pub fn concat3(s: &str, t: &str, u: &str) -> (res: String)
    ensures
        res@ == s@ + t@ + u@,
{
    let mut r = String::from_str(s);
    r.append(t);
    r.append(u);
    r
}

/// `s + t + u + w`, as a new string.
pub fn concat4(s: &str, t: &str, u: &str, w: &str) -> (res: String)
    ensures
        res@ == s@ + t@ + u@ + w@,
{
    let mut r = String::from_str(s);
    r.append(t);
    r.append(u);
    r.append(w);
    r
}

/// `s + t + u + w + x`, as a new string.
pub fn concat5(s: &str, t: &str, u: &str, w: &str, x: &str) -> (res: String)
    ensures
        res@ == s@ + t@ + u@ + w@ + x@,
{
    let mut r = String::from_str(s);
    r.append(t);
    r.append(u);
    r.append(w);
    r.append(x);
    r
}

/// `a + b + c + d + e + f`, as a new string.
pub fn concat6(a: &str, b: &str, c: &str, d: &str, e: &str, f: &str) -> (res: String)
    ensures
        res@ == a@ + b@ + c@ + d@ + e@ + f@,
{
    let mut r = String::from_str(a);
    r.append(b);
    r.append(c);
    r.append(d);
    r.append(e);
    r.append(f);
    r
}

/// `a + b + c + d + e + f + g`, as a new string.
pub fn concat7(a: &str, b: &str, c: &str, d: &str, e: &str, f: &str, g: &str) -> (res: String)
    ensures
        res@ == a@ + b@ + c@ + d@ + e@ + f@ + g@,
{
    let mut r = String::from_str(a);
    r.append(b);
    r.append(c);
    r.append(d);
    r.append(e);
    r.append(f);
    r.append(g);
    r
}


/// The `Debug` rendering of a string (quoted, with Rust escapes), as `{:?}`
/// formats a `&str`.
pub uninterp spec fn str_debug(s: Seq<char>) -> Seq<char>;

/// Formats `s` with `{:?}` (`<str as Debug>::fmt`). Trusted to return the text
/// named by [`str_debug`].
#[verifier::external_body]
pub(crate) fn debug_quoted(s: &str) -> (res: String)
    ensures
        res@ == str_debug(s@),
{
    format!("{:?}", s)
}

/// `(a + b) + c == a + (b + c)` on sequences of any element type.
pub proof fn lemma_seq_assoc<A>(a: Seq<A>, b: Seq<A>, c: Seq<A>)
    ensures
        (a + b) + c == a + (b + c),
{
    assert((a + b) + c =~= a + (b + c));
}

/// `s + [] == s`.
pub proof fn lemma_seq_add_empty<A>(s: Seq<A>)
    ensures
        s + Seq::<A>::empty() == s,
{
    assert(s + Seq::<A>::empty() =~= s);
}

/// Append each of `ms` to a list of strings.
pub fn push_msgs(v: &mut Vec<String>, ms: Vec<String>)
    ensures
        views(final(v)@) == views(old(v)@) + views(ms@),
{
    let ghost start = views(v@);
    let ghost all = views(ms@);
    let n = ms.len();
    let mut k: usize = 0;
    while k < n
        invariant
            n == ms@.len(),
            all == views(ms@),
            k <= n,
            views(v@) == start + all.take(k as int),
        decreases n - k,
    {
        let m = ms[k].clone();
        push_msg(v, m);
        assert(all.take(k + 1) =~= all.take(k as int).push(all[k as int]));
        assert(start + all.take(k + 1) =~= (start + all.take(k as int)).push(all[k as int]));
        k = k + 1;
    }
    assert(all.take(n as int) =~= all);
}


/// The pieces of `s` between occurrences of `sep` (a text with `k`
/// separators has `k + 1` pieces; the empty text has one empty piece).
pub open spec fn split_on(s: Seq<char>, sep: char) -> Seq<Seq<char>>
    decreases s.len(),
{
    if s.len() == 0 {
        seq![seq![]]
    } else {
        let p = split_on(s.drop_last(), sep);
        if s.last() == sep {
            p.push(seq![])
        } else {
            p.update(p.len() - 1, p.last().push(s.last()))
        }
    }
}

/// The pieces of `s` between occurrences of `sep`.
pub fn split_text(s: &str, sep: char) -> (res: Vec<String>)
    ensures
        views(res@) == split_on(s@, sep),
{
    let cs = chars_of(s);
    let n = cs.len();
    let mut done: Vec<String> = Vec::new();
    let mut cur = String::new();
    let mut i: usize = 0;
    while i < n
        invariant
            n == cs@.len(),
            cs@ == s@,
            i <= n,
            views(done@).push(cur@) == split_on(s@.take(i as int), sep),
        decreases n - i,
    {
        let c = cs[i];
        let ghost t = s@.take(i + 1);
        let ghost before = views(done@);
        let ghost cur0 = cur@;
        assert(t.drop_last() =~= s@.take(i as int));
        assert(t.last() == c);
        if c == sep {
            let piece = cur;
            push_msg(&mut done, piece);
            cur = String::new();
            assert(views(done@).push(cur@) =~= before.push(cur0).push(seq![]));
        } else {
            cur.push(c);
            assert(views(done@).push(cur@) =~= before.push(cur0).update(before.len() as int, cur0.push(c)));
        }
        i = i + 1;
    }
    assert(s@.take(n as int) =~= s@);
    push_msg(&mut done, cur);
    done
}

} // verus!
