//! What keeps a crossing of the boundary safe: text that can always be
//! handed over as a null-terminated string, and callbacks that are checked
//! before they are called.

use vstd::prelude::*;

verus! {

/// Any character but the null character.
pub open spec fn not_null(c: char) -> bool {
    c != '\0'
}

/// `s` with every null character removed, the rest in order.
pub open spec fn without_nulls(s: Seq<char>) -> Seq<char> {
    s.filter(|c: char| not_null(c))
}

/// No character of `s` is the null character.
pub open spec fn null_free(s: Seq<char>) -> bool {
    forall|i: int| 0 <= i < s.len() ==> not_null(#[trigger] s[i])
}

/// Removing the null characters leaves none.
pub proof fn lemma_without_nulls_is_null_free(s: Seq<char>)
    ensures
        null_free(without_nulls(s)),
    decreases s.len(),
{
    reveal(Seq::filter);
    if s.len() > 0 {
        lemma_without_nulls_is_null_free(s.drop_last());
    }
}

/// Text that holds no null character is left as it is.
pub proof fn lemma_without_nulls_keeps_null_free(s: Seq<char>)
    requires
        null_free(s),
    ensures
        without_nulls(s) == s,
    decreases s.len(),
{
    reveal(Seq::filter);
    if s.len() > 0 {
        assert(not_null(s[s.len() - 1]));
        assert forall|i: int| 0 <= i < s.drop_last().len() implies not_null(
            #[trigger] s.drop_last()[i],
        ) by {
            assert(s.drop_last()[i] == s[i]);
        }
        lemma_without_nulls_keeps_null_free(s.drop_last());
        assert(s.drop_last().push(s.last()) =~= s);
    } else {
        assert(without_nulls(s) =~= s);
    }
}

/// Sanitizing is idempotent: to remove the null characters twice is to
/// remove them once.
pub proof fn lemma_without_nulls_idempotent(s: Seq<char>)
    ensures
        without_nulls(without_nulls(s)) == without_nulls(s),
{
    lemma_without_nulls_is_null_free(s);
    lemma_without_nulls_keeps_null_free(without_nulls(s));
}

/// Removing the null characters goes piece by piece, so it keeps the order
/// of what stays.
pub proof fn lemma_without_nulls_sum(a: Seq<char>, b: Seq<char>)
    ensures
        without_nulls(a + b) == without_nulls(a) + without_nulls(b),
{
    Seq::filter_distributes_over_add(a, b, |c: char| not_null(c));
}

/// Text that is ready to cross the boundary as a null-terminated string: it
/// holds no null character, so a reader that stops at the terminator reads
/// all of it, and adding the terminator cannot fail.
#[derive(Debug, PartialEq, Eq)]
pub struct TerminatedString {
    text: String,
}

impl View for TerminatedString {
    type V = Seq<char>;

    closed spec fn view(&self) -> Seq<char> {
        self.text@
    }
}

impl TerminatedString {
    #[verifier::type_invariant]
    spec fn holds_no_null(&self) -> bool {
        null_free(self.text@)
    }

    /// The text before the terminator.
    pub fn to_str(&self) -> (s: &str)
        ensures
            s@ == self@,
            null_free(s@),
    {
        proof {
            use_type_invariant(self);
        }
        self.text.as_str()
    }

    /// The text before the terminator, as an owned string.
    pub fn into_string(self) -> (s: String)
        ensures
            s@ == self@,
            null_free(s@),
    {
        proof {
            use_type_invariant(&self);
        }
        self.text
    }

    /// Whether there is no text before the terminator.
    pub fn is_empty(&self) -> (empty: bool)
        ensures
            empty == (self@.len() == 0),
    {
        self.text.as_str().is_empty()
    }
}

/// Makes any text fit to cross the boundary, by removing its null
/// characters. This cannot fail: text without a null character is returned
/// unchanged, and text of null characters alone gives the empty string.
pub fn safe_cstring(s: &str) -> (out: TerminatedString)
    ensures
        out@ == without_nulls(s@),
        null_free(out@),
        null_free(s@) ==> out@ == s@,
{
    let mut text = String::new();
    for c in iter: s.chars()
        invariant
            iter.seq() == s@,
            text@ == without_nulls(s@.take(iter.index() as int)),
    {
        proof {
            let k = iter.index() as int;
            reveal(Seq::filter);
            assert(s@.take(k + 1).drop_last() == s@.take(k));
        }
        if c != '\0' {
            text.push(c);
        }
    }
    proof {
        assert(s@.take(s@.len() as int) == s@);
        lemma_without_nulls_is_null_free(s@);
        if null_free(s@) {
            lemma_without_nulls_keeps_null_free(s@);
        }
    }
    TerminatedString { text }
}

/// A host callback, carried as two width-matched integers: the address of
/// the function and the address of the data it is to be called with. The
/// integers are turned back into pointers only where the call is made.
#[derive(Clone, Copy, Debug, PartialEq, Eq)]
pub struct Callback {
    pub function: usize,
    pub data: usize,
}

impl Callback {
    /// A callback can be called when its function address is not zero. The
    /// data address may be zero: it is the host's to read.
    pub open spec fn callable(self) -> bool {
        self.function != 0
    }

    /// Whether the callback can be called.
    pub fn is_callable(&self) -> (ok: bool)
        ensures
            ok == self.callable(),
    {
        self.function != 0
    }
}

} // verus!
