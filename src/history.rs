//! The history of copied text: most recent first, no two entries equal, at
//! most `MAX_HISTORY_LENGTH` entries.
use vstd::prelude::*;

use crate::text::{is_blank, is_blank_text};

verus! {

/// The number of entries the history keeps.
pub const MAX_HISTORY_LENGTH: usize = 100;

/// The texts of a sequence of strings.
pub open spec fn texts(v: Seq<String>) -> Seq<Seq<char>> {
    v.map_values(|e: String| e@)
}

/// A well-formed history: no two entries equal, and no more than the bound.
pub open spec fn valid_history(h: Seq<Seq<char>>) -> bool {
    &&& h.len() <= MAX_HISTORY_LENGTH
    &&& h.no_duplicates()
}

/// Whether `t` is taken into history `h`: it is not blank and not already there.
pub open spec fn accepts(h: Seq<Seq<char>>, t: Seq<char>) -> bool {
    !is_blank(t) && !h.contains(t)
}

/// The history after a clipboard read of `t`: an accepted text goes to the
/// front, and the oldest entry leaves when the bound is exceeded.
pub open spec fn inserted(h: Seq<Seq<char>>, t: Seq<char>) -> Seq<Seq<char>> {
    if accepts(h, t) {
        let n = seq![t] + h;
        if n.len() > MAX_HISTORY_LENGTH {
            n.drop_last()
        } else {
            n
        }
    } else {
        h
    }
}

/// The history after the clipboard reads `reads`, in order, starting from `h`.
pub open spec fn replayed(h: Seq<Seq<char>>, reads: Seq<Seq<char>>) -> Seq<Seq<char>>
    decreases reads.len(),
{
    if reads.len() == 0 {
        h
    } else {
        replayed(inserted(h, reads[0]), reads.drop_first())
    }
}

/// The ordered, deduplicated, bounded history of copied text.
pub struct History {
    entries: Vec<String>,
}

impl View for History {
    type V = Seq<Seq<char>>;

    closed spec fn view(&self) -> Seq<Seq<char>> {
        texts(self.entries@)
    }
}

impl History {
    #[verifier::type_invariant]
    spec fn well_formed(&self) -> bool {
        valid_history(self@)
    }

    /// An empty history.
    pub fn new() -> (r: History)
        ensures
            r@ == Seq::<Seq<char>>::empty(),
    {
        let r = History { entries: Vec::new() };
        assert(r@ =~= Seq::<Seq<char>>::empty());
        r
    }

    /// Whether the history holds an entry equal to `text`.
    pub fn contains(&self, text: &String) -> (r: bool)
        ensures
            r == self@.contains(text@),
    {
        let mut i: usize = 0;
        while i < self.entries.len()
            invariant
                i <= self.entries@.len(),
                forall|k: int| 0 <= k < i ==> self.entries@[k]@ != text@,
            decreases self.entries@.len() - i,
        {
            if self.entries[i] == *text {
                assert(self@[i as int] == text@);
                return true;
            }
            i = i + 1;
        }
        assert forall|k: int| 0 <= k < self@.len() implies self@[k] != text@ by {
            assert(self@[k] == self.entries@[k]@);
        }
        false
    }

    /// Takes a text read from the clipboard into the history. A blank text,
    /// or one that the history already holds, leaves it unchanged; any other
    /// goes to the front, and the oldest entry leaves if the history then
    /// holds more than `MAX_HISTORY_LENGTH` entries. Returns whether the text
    /// was taken.
    pub fn insert(&mut self, text: String) -> (r: bool)
        ensures
            r == accepts(old(self)@, text@),
            final(self)@ == inserted(old(self)@, text@),
    {
        proof {
            use_type_invariant(&*self);
        }
        if is_blank_text(text.as_str()) || self.contains(&text) {
            return false;
        }
        let ghost t = text@;
        let ghost h = self@;
        let mut entries: Vec<String> = Vec::new();
        std::mem::swap(&mut entries, &mut self.entries);
        assert(texts(entries@) == h);
        entries.insert(0, text);
        assert(texts(entries@) =~= seq![t] + h);
        if entries.len() > MAX_HISTORY_LENGTH {
            entries.pop();
            assert(texts(entries@) =~= (seq![t] + h).drop_last());
        }
        proof {
            lemma_inserted_valid(h, t);
        }
        self.entries = entries;
        true
    }


    /// A copy of the entries, most recent first.
    pub fn snapshot(&self) -> (r: Vec<String>)
        ensures
            texts(r@) == self@,
            valid_history(self@),
    {
        proof {
            use_type_invariant(self);
        }
        let mut out: Vec<String> = Vec::new();
        let mut i: usize = 0;
        while i < self.entries.len()
            invariant
                i <= self.entries@.len(),
                out@.len() == i,
                forall|k: int| 0 <= k < i ==> out@[k]@ == self.entries@[k]@,
            decreases self.entries@.len() - i,
        {
            out.push(self.entries[i].clone());
            i = i + 1;
        }
        assert(texts(out@) =~= self@);
        out
    }

    /// Empties the history.
    pub fn clear(&mut self)
        ensures
            final(self)@ == Seq::<Seq<char>>::empty(),
    {
        self.entries = Vec::new();
        assert(self@ =~= Seq::<Seq<char>>::empty());
    }

    /// A history holding `entries` in the given order, if they form a
    /// well-formed history (no two equal, no more than the bound).
    pub fn from_entries(entries: Vec<String>) -> (r: Option<History>)
        ensures
            r is Some <==> valid_history(texts(entries@)),
            r matches Some(h) ==> h@ == texts(entries@),
    {
        let ghost v = texts(entries@);
        if entries.len() > MAX_HISTORY_LENGTH {
            return None;
        }
        let mut i: usize = 0;
        while i < entries.len()
            invariant
                i <= entries@.len() == v.len(),
                v == texts(entries@),
                forall|a: int, b: int| 0 <= a < i && 0 <= b < v.len() && a != b ==> v[a] != v[b],
            decreases entries@.len() - i,
        {
            let mut j: usize = 0;
            while j < entries.len()
                invariant
                    i < entries@.len() == v.len(),
                    j <= entries@.len(),
                    v == texts(entries@),
                    forall|b: int| 0 <= b < j && b != i ==> v[i as int] != v[b],
                decreases entries@.len() - j,
            {
                if j != i && entries[i] == entries[j] {
                    assert(v[i as int] == v[j as int]);
                    return None;
                }
                j = j + 1;
            }
            i = i + 1;
        }
        Some(History { entries })
    }

    /// The number of entries.
    pub fn len(&self) -> (r: usize)
        ensures
            r == self@.len(),
            r <= MAX_HISTORY_LENGTH,
    {
        proof {
            use_type_invariant(self);
        }
        self.entries.len()
    }

    /// Whether the history holds no entry.
    pub fn is_empty(&self) -> (r: bool)
        ensures
            r == (self@.len() == 0),
    {
        self.entries.len() == 0
    }

    /// The entry at position `i`, counted from the most recent.
    pub fn get(&self, i: usize) -> (r: &String)
        requires
            i < self@.len(),
        ensures
            r@ == self@[i as int],
    {
        &self.entries[i]
    }
}

/// Taking a clipboard read into a well-formed history keeps it well formed.
pub proof fn lemma_inserted_valid(h: Seq<Seq<char>>, t: Seq<char>)
    requires
        valid_history(h),
    ensures
        valid_history(inserted(h, t)),
{
    if accepts(h, t) {
        let n = seq![t] + h;
        assert forall|i: int, j: int| 0 <= i < n.len() && 0 <= j < n.len() && i != j implies n[i]
            != n[j] by {
            if i == 0 {
                assert(n[j] == h[j - 1]);
            } else if j == 0 {
                assert(n[i] == h[i - 1]);
            } else {
                assert(n[i] == h[i - 1] && n[j] == h[j - 1]);
            }
        }
        if n.len() > MAX_HISTORY_LENGTH {
            let d = n.drop_last();
            assert forall|i: int, j: int| 0 <= i < d.len() && 0 <= j < d.len() && i != j implies d[i]
                != d[j] by {
                assert(d[i] == n[i] && d[j] == n[j]);
            }
        }
    }
}

/// Whatever clipboard reads come, a well-formed history stays well formed:
/// it never holds more than `MAX_HISTORY_LENGTH` entries, nor two equal ones.
pub proof fn lemma_replayed_valid(h: Seq<Seq<char>>, reads: Seq<Seq<char>>)
    requires
        valid_history(h),
    ensures
        valid_history(replayed(h, reads)),
    decreases reads.len(),
{
    if reads.len() > 0 {
        lemma_inserted_valid(h, reads[0]);
        lemma_replayed_valid(inserted(h, reads[0]), reads.drop_first());
    }
}

/// Reading the same text twice in a row changes the history once at most:
/// the second read is not taken and leaves the history as the first left it.
pub proof fn lemma_insert_idempotent(h: Seq<Seq<char>>, t: Seq<char>)
    ensures
        !accepts(inserted(h, t), t),
        inserted(inserted(h, t), t) == inserted(h, t),
{
    if accepts(h, t) {
        let n = seq![t] + h;
        assert(n[0] == t);
        if n.len() > MAX_HISTORY_LENGTH {
            assert(n.drop_last()[0] == t);
            assert(n.drop_last().contains(t));
        } else {
            assert(n.contains(t));
        }
    }
}

} // verus!
