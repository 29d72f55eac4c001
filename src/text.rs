use vstd::prelude::*;

verus! {

/// Whether `needle` occurs in `text` as a run of consecutive characters.
pub open spec fn occurs_in(needle: Seq<char>, text: Seq<char>) -> bool {
    exists|i: int|
        0 <= i <= text.len() - needle.len() && #[trigger] text.subrange(i, i + needle.len())
            == needle
}

/// The characters of `s`, one per element.
fn chars_of(s: &str) -> (r: Vec<char>)
    ensures
        r@ == s@,
{
    let n = s.unicode_len();
    let mut v: Vec<char> = Vec::new();
    let mut i: usize = 0;
    while i < n
        invariant
            n == s@.len(),
            i <= n,
            v@ == s@.subrange(0, i as int),
        decreases n - i,
    {
        v.push(s.get_char(i));
        i = i + 1;
    }
    assert(v@ =~= s@);
    v
}

/// Whether `needle` stands in `text` from position `at` on.
fn occurs_at(text: &Vec<char>, needle: &Vec<char>, at: usize) -> (r: bool)
    requires
        at + needle@.len() <= text@.len(),
    ensures
        r == (text@.subrange(at as int, at + needle@.len()) == needle@),
{
    let size = text.len();
    let mut k: usize = 0;
    while k < needle.len()
        invariant
            size == text@.len(),
            at + needle@.len() <= text@.len(),
            k <= needle@.len(),
            forall|m: int| 0 <= m < k ==> text@[at + m] == needle@[m],
        decreases needle@.len() - k,
    {
        if text[at + k] != needle[k] {
            assert(text@.subrange(at as int, at + needle@.len())[k as int] != needle@[k as int]);
            return false;
        }
        k = k + 1;
    }
    assert(text@.subrange(at as int, at + needle@.len()) =~= needle@);
    true
}

/// Whether `needle` occurs somewhere in `text`.
pub fn contains_text(text: &str, needle: &str) -> (r: bool)
    ensures
        r == occurs_in(needle@, text@),
{
    let t = chars_of(text);
    let n = chars_of(needle);
    if n.len() > t.len() {
        return false;
    }
    let last = t.len() - n.len();
    let mut i: usize = 0;
    loop
        invariant
            t@ == text@,
            n@ == needle@,
            last == t@.len() - n@.len(),
            i <= last,
            forall|j: int| 0 <= j < i ==> #[trigger] t@.subrange(j, j + n@.len()) != n@,
        decreases last - i,
    {
        if occurs_at(&t, &n, i) {
            return true;
        }
        if i == last {
            return false;
        }
        i = i + 1;
    }
}

/// Whether two texts are the same.
pub fn same_text(a: &str, b: &str) -> (r: bool)
    ensures
        r == (a@ == b@),
{
    String::from_str(a) == String::from_str(b)
}

} // verus!
