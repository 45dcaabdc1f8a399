//! Text of generated code: joining pieces, and the few character-level
//! operations of std that the generator uses.
use vstd::prelude::*;

verus! {

/// The views of a sequence of strings.
pub open spec fn views(v: Seq<String>) -> Seq<Seq<char>> {
    v.map_values(|s: String| s@)
}

/// The views of `v` with `s` pushed are those of `v` with the view of `s` pushed.
pub proof fn lemma_views_push(v: Seq<String>, s: String)
    ensures
        views(v.push(s)) == views(v).push(s@),
{
    assert(views(v.push(s)) =~= views(v).push(s@));
}

/// `items` with `sep` between each two neighbours.
pub open spec fn join(items: Seq<Seq<char>>, sep: Seq<char>) -> Seq<char>
    decreases items.len(),
{
    if items.len() == 0 {
        Seq::empty()
    } else if items.len() == 1 {
        items[0]
    } else {
        join(items.drop_last(), sep) + sep + items.last()
    }
}

/// `items` written one after the other.
pub open spec fn concat(items: Seq<Seq<char>>) -> Seq<char>
    decreases items.len(),
{
    if items.len() == 0 {
        Seq::empty()
    } else {
        concat(items.drop_last()) + items.last()
    }
}

/// What `char::to_ascii_uppercase` gives: `'a'..='z'` mapped to `'A'..='Z'`,
/// every other character unchanged.
pub open spec fn upper_ascii(c: char) -> char {
    if 'a' <= c && c <= 'z' {
        ((c as int) - 32) as char
    } else {
        c
    }
}

/// Calls `String::push`; std documents that it appends the character to the
/// end of the string.
#[verifier::external_body]
pub(crate) fn push_char(s: &mut String, c: char)
    ensures
        final(s)@ == old(s)@.push(c),
{
    s.push(c);
}

/// The character in ASCII upper case: `a` to `z` become `A` to `Z`, every
/// other character is returned unchanged.
pub fn to_ascii_uppercase(c: char) -> (r: char)
    ensures
        r == upper_ascii(c),
{
    if 'a' <= c && c <= 'z' {
        let v: u32 = c as u32;
        assert(97 <= v <= 122);
        assert((v as u8) as u32 == v) by (bit_vector)
            requires
                97 <= v <= 122,
        ;
        let b: u8 = v as u8;
        (b - 32) as char
    } else {
        c
    }
}

/// A copy of a string.
pub fn copy_string(s: &String) -> (r: String)
    ensures
        r@ == s@,
{
    let mut r = String::new();
    r.append(s.as_str());
    r
}

/// Whether two strings hold the same characters.
pub fn str_eq(a: &str, b: &str) -> (r: bool)
    ensures
        r == (a@ == b@),
{
    let n = a.unicode_len();
    if n != b.unicode_len() {
        return false;
    }
    let mut i: usize = 0;
    while i < n
        invariant
            n == a@.len(),
            n == b@.len(),
            i <= n,
            forall|j: int| 0 <= j < i ==> a@[j] == b@[j],
        decreases n - i,
    {
        if a.get_char(i) != b.get_char(i) {
            return false;
        }
        i += 1;
    }
    assert(a@ =~= b@);
    true
}

/// Appends the elements of `items`, separated by `sep`, to `out`.
pub fn push_join(out: &mut String, items: &Vec<String>, sep: &str)
    ensures
        final(out)@ == old(out)@ + join(views(items@), sep@),
{
    let ghost start = out@;
    let n = items.len();
    let mut i: usize = 0;
    assert(views(items@.take(0)) =~= Seq::<Seq<char>>::empty());
    assert(out@ =~= start + join(views(items@.take(0)), sep@));
    while i < n
        invariant
            n == items.len(),
            i <= n,
            out@ == start + join(views(items@.take(i as int)), sep@),
        decreases n - i,
    {
        let ghost before = out@;
        let ghost prev = views(items@.take(i as int));
        let ghost next = views(items@.take(i + 1));
        assert(next.drop_last() =~= prev);
        assert(next.last() == items@[i as int]@);
        if i > 0 {
            out.append(sep);
        }
        out.append(items[i].as_str());
        if i == 0 {
            assert(next.len() == 1);
            assert(prev =~= Seq::<Seq<char>>::empty());
            assert(out@ =~= start + join(next, sep@));
        } else {
            assert(out@ =~= start + join(next, sep@));
        }
        i += 1;
    }
    assert(items@.take(n as int) =~= items@);
}

/// Appends the elements of `items`, one after the other, to `out`.
pub fn push_concat(out: &mut String, items: &Vec<String>)
    ensures
        final(out)@ == old(out)@ + concat(views(items@)),
{
    let ghost start = out@;
    let n = items.len();
    let mut i: usize = 0;
    assert(views(items@.take(0)) =~= Seq::<Seq<char>>::empty());
    assert(out@ =~= start + concat(views(items@.take(0))));
    while i < n
        invariant
            n == items.len(),
            i <= n,
            out@ == start + concat(views(items@.take(i as int))),
        decreases n - i,
    {
        let ghost prev = views(items@.take(i as int));
        let ghost next = views(items@.take(i + 1));
        assert(next.drop_last() =~= prev);
        out.append(items[i].as_str());
        assert(out@ =~= start + concat(next));
        i += 1;
    }
    assert(items@.take(n as int) =~= items@);
}

} // verus!
