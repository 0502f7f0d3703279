//! Task identifiers: short strings over an unambiguous alphabet, compared by
//! containment so that an abbreviated id matches the full one.

use rand::seq::IteratorRandom;
use vstd::prelude::*;
use vstd::string::StrSliceExecFns;
use vstd::string::StringExecFns;

verus! {

/// Characters an identifier is drawn from: digits and lower-case letters
/// that are hard to confuse with one another.
pub const VALID_ID_CHARS: &'static str = "23456789abcdefghkmnpqrstwxyz";

/// Length of a freshly generated identifier.
pub const NUMBER_OF_CHARS_IN_FULL_ID: usize = 16;

/// The alphabet as a sequence of characters.
pub open spec fn id_alphabet() -> Seq<char> {
    VALID_ID_CHARS@
}

/// `a` occurs as a contiguous run inside `b`.
pub open spec fn is_substring(a: Seq<char>, b: Seq<char>) -> bool {
    exists|k: int| 0 <= k && k + a.len() <= b.len() && #[trigger] b.subrange(k, k + a.len()) == a
}

/// Identifier equality: one of the two contains the other.
///
/// This relation is symmetric but not transitive ("ab" matches both "a" and
/// "b", which do not match each other), so an `Id` must not serve as the key
/// of a hashed collection.
pub open spec fn ids_match(a: Seq<char>, b: Seq<char>) -> bool {
    is_substring(a, b) || is_substring(b, a)
}

#[derive(Debug, Clone)]
pub struct Id {
    content: String,
}

impl View for Id {
    type V = Seq<char>;

    closed spec fn view(&self) -> Seq<char> {
        self.content@
    }
}

/// Relies on rand's `IteratorRandom::choose` over the range `0..n`, drawn with
/// the thread-local generator: it returns `None` exactly when the range is
/// empty, and otherwise one of its elements.
#[verifier::external_body]
fn choose_index(n: usize) -> (r: Option<usize>)
    ensures
        r is None <==> n == 0,
        r matches Some(i) ==> i < n,
{
    (0..n).choose(&mut rand::thread_rng())
}

/// The characters of `s`, one by one.
fn char_vec(s: &str) -> (r: Vec<char>)
    ensures
        r@ == s@,
{
    let n = s.unicode_len();
    let mut r: Vec<char> = Vec::new();
    let mut i: usize = 0;
    while i < n
        invariant
            n == s@.len(),
            i <= n,
            r@ == s@.subrange(0, i as int),
        decreases n - i,
    {
        r.push(s.get_char(i));
        i += 1;
    }
    assert(r@ =~= s@);
    r
}

/// Whether `needle` occurs in `hay` starting at position `k`.
fn occurs_at(hay: &Vec<char>, needle: &Vec<char>, k: usize) -> (r: bool)
    requires
        k + needle.len() <= hay.len(),
    ensures
        r == (hay@.subrange(k as int, k + needle.len()) == needle@),
{
    let mut j: usize = 0;
    while j < needle.len()
        invariant
            j <= needle.len(),
            k + needle.len() <= hay.len(),
            forall|m: int| 0 <= m < j ==> hay@[k + m] == needle@[m],
        decreases needle.len() - j,
    {
        if hay[k + j] != needle[j] {
            assert(hay@.subrange(k as int, k + needle.len())[j as int] != needle@[j as int]);
            return false;
        }
        j += 1;
    }
    assert(hay@.subrange(k as int, k + needle.len()) =~= needle@);
    true
}

/// Whether `needle` occurs anywhere in `hay`.
fn contains_run(hay: &Vec<char>, needle: &Vec<char>) -> (r: bool)
    ensures
        r == is_substring(needle@, hay@),
{
    if needle.len() > hay.len() {
        return false;
    }
    let last = hay.len() - needle.len();
    let mut k: usize = 0;
    loop
        invariant
            last == hay.len() - needle.len(),
            k <= last,
            forall|m: int|
                0 <= m < k ==> #[trigger] hay@.subrange(m, m + needle.len()) != needle@,
        decreases last - k,
    {
        if occurs_at(hay, needle, k) {
            return true;
        }
        if k == last {
            return false;
        }
        k += 1;
    }
}

/// The characters at positions `ks` of the alphabet, in order.
pub open spec fn chars_at(ks: Seq<usize>) -> Seq<char> {
    ks.map_values(|k: usize| id_alphabet()[k as int])
}

/// Every position in `ks` lies inside the alphabet.
pub open spec fn valid_draws(ks: Seq<usize>) -> bool {
    forall|i: int| 0 <= i < ks.len() ==> #[trigger] ks[i] < id_alphabet().len()
}

/// `s` is the alphabet's characters at some run of `NUMBER_OF_CHARS_IN_FULL_ID`
/// positions.
pub open spec fn is_drawn_id(s: Seq<char>) -> bool {
    exists|ks: Seq<usize>|
        ks.len() == NUMBER_OF_CHARS_IN_FULL_ID && valid_draws(ks) && s == #[trigger] chars_at(ks)
}

impl Id {
    /// A fresh identifier: `NUMBER_OF_CHARS_IN_FULL_ID` positions drawn
    /// independently and uniformly from `VALID_ID_CHARS`, turned into
    /// characters by `from_draws`. Uniqueness is not checked.
    pub fn generate() -> (r: Id)
        ensures
            r@.len() == NUMBER_OF_CHARS_IN_FULL_ID,
            forall|i: int| 0 <= i < r@.len() ==> id_alphabet().contains(#[trigger] r@[i]),
            is_drawn_id(r@),
    {
        Id { content: Id::get_easy_type_id() }
    }

    fn get_easy_type_id() -> (r: String)
        ensures
            r@.len() == NUMBER_OF_CHARS_IN_FULL_ID,
            forall|i: int| 0 <= i < r@.len() ==> id_alphabet().contains(#[trigger] r@[i]),
            is_drawn_id(r@),
    {
        let n = VALID_ID_CHARS.unicode_len();
        proof {
            reveal_strlit("23456789abcdefghkmnpqrstwxyz");
        }
        let mut draws: Vec<usize> = Vec::new();
        while draws.len() < NUMBER_OF_CHARS_IN_FULL_ID
            invariant
                n == id_alphabet().len(),
                n > 0,
                draws.len() <= NUMBER_OF_CHARS_IN_FULL_ID,
                valid_draws(draws@),
            decreases NUMBER_OF_CHARS_IN_FULL_ID - draws.len(),
        {
            let k = match choose_index(n) {
                Some(k) => k,
                None => 0,
            };
            draws.push(k);
        }
        let id = Id::from_draws(&draws);
        assert forall|i: int| 0 <= i < id@.len() implies id_alphabet().contains(#[trigger] id@[i]) by {
            assert(id@[i] == id_alphabet()[draws@[i] as int]);
        }
        id.content
    }

    /// The identifier whose i-th character is the alphabet's entry at
    /// `ks[i]`: the deterministic half of generation, which takes the drawn
    /// positions from any source.
    pub fn from_draws(ks: &Vec<usize>) -> (r: Id)
        requires
            valid_draws(ks@),
        ensures
            r@ == chars_at(ks@),
    {
        let mut result = String::new();
        let mut i: usize = 0;
        while i < ks.len()
            invariant
                valid_draws(ks@),
                i <= ks.len(),
                result@ == chars_at(ks@.subrange(0, i as int)),
            decreases ks.len() - i,
        {
            let k = ks[i];
            proof {
                reveal_strlit("23456789abcdefghkmnpqrstwxyz");
            }
            let one = VALID_ID_CHARS.substring_char(k, k + 1);
            result.append(one);
            assert(result@ =~= chars_at(ks@.subrange(0, i + 1)));
            i += 1;
        }
        assert(ks@.subrange(0, ks@.len() as int) =~= ks@);
        Id { content: result }
    }

    /// The identifier made of exactly the characters of `content`.
    pub fn new(content: &str) -> (r: Id)
        ensures
            r@ == content@,
    {
        Id { content: String::from_str(content) }
    }

    /// The identifier's text.
    pub fn as_str(&self) -> (r: &str)
        ensures
            r@ == self@,
    {
        self.content.as_str()
    }

    /// Containment equality: either identifier occurs inside the other.
    pub fn matches(&self, other: &Id) -> (r: bool)
        ensures
            r == ids_match(self@, other@),
    {
        let a = char_vec(self.content.as_str());
        let b = char_vec(other.content.as_str());
        contains_run(&b, &a) || contains_run(&a, &b)
    }
}

impl PartialEq for Id {
    fn eq(&self, other: &Id) -> (r: bool) {
        self.matches(other)
    }
}

impl vstd::std_specs::cmp::PartialEqSpecImpl for Id {
    open spec fn obeys_eq_spec() -> bool {
        true
    }

    open spec fn eq_spec(&self, other: &Id) -> bool {
        ids_match(self@, other@)
    }
}

/// Containment equality holds both ways whenever one identifier's text
/// occurs inside the other's.
pub proof fn lemma_match_of_substring(a: Seq<char>, b: Seq<char>)
    requires
        is_substring(a, b) || is_substring(b, a),
    ensures
        ids_match(a, b),
        ids_match(b, a),
{
}

} // verus!
