//! The textual program format: a label table, an end-of-table marker, then the
//! instruction tokens.
//!
//! Everything before the marker is read as white-space separated pairs of a
//! label name and the decimal index of the token that the label stands for.
//! Everything after it is split at white space into the token stream.

use crate::text::{chars_of, is_space, is_whitespace, parse_unsigned, unsigned_literal};
use vstd::hash_map::StringHashMap;
use vstd::prelude::*;

verus! {

/// The line that ends the label table.
pub open spec fn table_end() -> Seq<char> {
    "/// END COMPILER GENERATED LABEL TABLE ///"@
}

/// The views of a sequence of strings.
pub open spec fn texts(v: Seq<String>) -> Seq<Seq<char>> {
    v.map_values(|s: String| s@)
}

/// Whether `pat` stands in `text` at position `i`.
pub open spec fn occurs_at(text: Seq<char>, pat: Seq<char>, i: int) -> bool {
    0 <= i && i + pat.len() <= text.len() && text.subrange(i, i + pat.len()) == pat
}

/// The first position at or after `i` at which `pat` stands in `text`.
pub open spec fn find_from(text: Seq<char>, pat: Seq<char>, i: int) -> Option<int>
    decreases text.len() - i + 1,
{
    if i < 0 || i + pat.len() > text.len() {
        None
    } else if occurs_at(text, pat, i) {
        Some(i)
    } else {
        find_from(text, pat, i + 1)
    }
}

/// The first position at which `pat` stands in `text`.
pub open spec fn first_occurrence(text: Seq<char>, pat: Seq<char>) -> Option<int> {
    find_from(text, pat, 0)
}

/// `find_from` returns the least position at or after `i` where `pat` occurs,
/// and `None` only when there is no such position.
pub proof fn lemma_find_from(text: Seq<char>, pat: Seq<char>, i: int)
    requires
        0 <= i,
    ensures
        match find_from(text, pat, i) {
            Some(k) => i <= k && occurs_at(text, pat, k) && forall|j: int|
                i <= j < k ==> !occurs_at(text, pat, j),
            None => forall|j: int| i <= j ==> !occurs_at(text, pat, j),
        },
    decreases text.len() - i + 1,
{
    if i + pat.len() > text.len() {
    } else if occurs_at(text, pat, i) {
    } else {
        lemma_find_from(text, pat, i + 1);
    }
}

/// The words of `s` when `cur` holds the characters already read of the word
/// in progress.
pub open spec fn words_from(s: Seq<char>, cur: Seq<char>) -> Seq<Seq<char>>
    decreases s.len(),
{
    let done = if cur.len() > 0 {
        seq![cur]
    } else {
        Seq::empty()
    };
    if s.len() == 0 {
        done
    } else if is_space(s[0]) {
        done + words_from(s.drop_first(), Seq::empty())
    } else {
        words_from(s.drop_first(), cur.push(s[0]))
    }
}

/// The maximal runs of characters other than white space in `s`, in order.
pub open spec fn words(s: Seq<char>) -> Seq<Seq<char>> {
    words_from(s, Seq::empty())
}

/// A word: one character or more, none of them white space.
pub open spec fn is_word(w: Seq<char>) -> bool {
    w.len() > 0 && forall|j: int| 0 <= j < w.len() ==> !is_space(#[trigger] w[j])
}

/// Splitting yields words only, provided the word in progress holds no white
/// space.
pub proof fn law_words_are_words(s: Seq<char>, cur: Seq<char>)
    requires
        forall|j: int| 0 <= j < cur.len() ==> !is_space(#[trigger] cur[j]),
    ensures
        forall|i: int| 0 <= i < words_from(s, cur).len() ==> is_word(#[trigger] words_from(s, cur)[i]),
    decreases s.len(),
{
    let done = if cur.len() > 0 {
        seq![cur]
    } else {
        Seq::empty()
    };
    assert(forall|i: int| 0 <= i < done.len() ==> is_word(#[trigger] done[i]));
    if s.len() == 0 {
        assert(words_from(s, cur) == done);
    } else if is_space(s[0]) {
        law_words_are_words(s.drop_first(), Seq::empty());
        let rest = words_from(s.drop_first(), Seq::empty());
        assert forall|i: int| 0 <= i < (done + rest).len() implies is_word(
            #[trigger] (done + rest)[i],
        ) by {
            if i >= done.len() {
                assert((done + rest)[i] == rest[i - done.len()]);
            } else {
                assert((done + rest)[i] == done[i]);
            }
        }
        assert(words_from(s, cur) == done + rest);
    } else {
        let grown = cur.push(s[0]);
        assert forall|j: int| 0 <= j < grown.len() implies !is_space(#[trigger] grown[j]) by {
            if j < cur.len() {
                assert(grown[j] == cur[j]);
            }
        }
        law_words_are_words(s.drop_first(), grown);
        assert(words_from(s, cur) == words_from(s.drop_first(), grown));
    }
}

/// The table that a sequence of alternating names and indices denotes. A later
/// pair replaces an earlier one with the same name; a name without an index at
/// the very end is dropped. There is no table when some index is not a decimal
/// literal that fits the machine word.
pub open spec fn label_table(toks: Seq<Seq<char>>) -> Option<Map<Seq<char>, usize>>
    decreases toks.len(),
{
    let n = toks.len() as int;
    if n < 2 {
        Some(Map::empty())
    } else if n % 2 == 1 {
        label_table(toks.drop_last())
    } else {
        match (label_table(toks.take(n - 2)), unsigned_literal(toks[n - 1], usize::MAX as nat)) {
            (Some(m), Some(v)) => Some(m.insert(toks[n - 2], v as usize)),
            _ => None,
        }
    }
}

/// A program as the machine sees it.
pub struct Program {
    /// The instruction tokens.
    pub tokens: Seq<Seq<char>>,
    /// Label name to token index.
    pub labels: Map<Seq<char>, usize>,
}

/// Why a text is not a program.
#[derive(Clone, Copy, Debug, PartialEq, Eq, Structural)]
pub enum AsmError {
    /// The marker that ends the label table does not occur.
    MissingTableEnd,
    /// A label is followed by something other than a token index.
    BadLabelIndex,
}

/// What a text assembles to.
pub open spec fn assemble(text: Seq<char>) -> Result<Program, AsmError> {
    match first_occurrence(text, table_end()) {
        None => Err(AsmError::MissingTableEnd),
        Some(at) => match label_table(words(text.take(at))) {
            None => Err(AsmError::BadLabelIndex),
            Some(labels) => Ok(
                Program { tokens: words(text.skip(at + table_end().len())), labels },
            ),
        },
    }
}

/// Every token of an assembled program is a word: it is not empty and holds
/// no white space.
pub proof fn law_tokens_are_words(text: Seq<char>)
    ensures
        assemble(text) matches Ok(program) ==> forall|i: int|
            0 <= i < program.tokens.len() ==> is_word(#[trigger] program.tokens[i]),
{
    if let Some(at) = first_occurrence(text, table_end()) {
        law_words_are_words(text.skip(at + table_end().len()), Seq::empty());
    }
}

/// Label name to token index: a hash map from `String` to `usize`.
///
/// The map is held as vstd's `StringHashMap`, which is `std`'s `HashMap` with
/// `String` keys under vstd's own specification. Of a bare `HashMap<String,
/// usize>` nothing can be proved, not even its length after one insertion,
/// because vstd has no key model for `String`.
pub struct LabelTable {
    map: StringHashMap<usize>,
}

impl View for LabelTable {
    type V = Map<Seq<char>, usize>;

    closed spec fn view(&self) -> Map<Seq<char>, usize> {
        self.map@
    }
}

impl LabelTable {
    /// A table without labels.
    pub fn new() -> (table: Self)
        ensures
            table@ == Map::<Seq<char>, usize>::empty(),
    {
        LabelTable { map: StringHashMap::new() }
    }

    /// Binds `name` to `index`, replacing an earlier binding of the name.
    pub fn insert(&mut self, name: String, index: usize)
        ensures
            final(self)@ == old(self)@.insert(name@, index),
    {
        self.map.insert(name, index);
    }

    /// The index bound to `name`.
    pub fn get(&self, name: &str) -> (index: Option<usize>)
        ensures
            index == (if self@.contains_key(name@) {
                Some(self@[name@])
            } else {
                None
            }),
    {
        match self.map.get(name) {
            Some(i) => Some(*i),
            None => None,
        }
    }

    /// The number of labels.
    pub fn len(&self) -> (n: usize)
        ensures
            n == self@.len(),
    {
        self.map.len()
    }
}

/// An assembled program: the token stream and its label table.
pub struct Assembly {
    pub label_table: LabelTable,
    pub tokens: Vec<String>,
}

impl View for Assembly {
    type V = Program;

    open spec fn view(&self) -> Program {
        Program { tokens: texts(self.tokens@), labels: self.label_table@ }
    }
}

/// Finds the first occurrence of `pat` in `text`.
pub fn find(text: &Vec<char>, pat: &Vec<char>) -> (r: Option<usize>)
    ensures
        match r {
            Some(k) => first_occurrence(text@, pat@) == Some(k as int),
            None => first_occurrence(text@, pat@) is None,
        },
{
    if pat.len() > text.len() {
        return None;
    }
    let last: usize = text.len() - pat.len();
    let mut i: usize = 0;
    while i <= last
        invariant
            last == text.len() - pat.len(),
            0 <= i <= last + 1,
            find_from(text@, pat@, 0) == find_from(text@, pat@, i as int),
        decreases last + 1 - i,
    {
        let mut j: usize = 0;
        while j < pat.len() && text[i + j] == pat[j]
            invariant
                last == text.len() - pat.len(),
                i <= last,
                j <= pat.len(),
                forall|k: int| 0 <= k < j ==> text@[i + k] == pat@[k],
            decreases pat.len() - j,
        {
            j += 1;
        }
        if j == pat.len() {
            assert(text@.subrange(i as int, i + pat.len()) =~= pat@);
            return Some(i);
        }
        i += 1;
    }
    None
}

/// Splits `text[from..to]` at white space.
pub fn split_words(text: &Vec<char>, from: usize, to: usize) -> (out: Vec<String>)
    requires
        from <= to <= text.len(),
    ensures
        texts(out@) == words(text@.subrange(from as int, to as int)),
{
    let ghost s = text@.subrange(from as int, to as int);
    let mut out: Vec<String> = Vec::new();
    let mut cur = String::new();
    let mut i: usize = from;
    assert(s.skip(0) == s);
    while i < to
        invariant
            from <= i <= to <= text.len(),
            s == text@.subrange(from as int, to as int),
            words(s) == texts(out@) + words_from(s.skip(i - from), cur@),
        decreases to - i,
    {
        let c = text[i];
        assert(s.skip(i - from).drop_first() == s.skip(i - from + 1));
        if is_whitespace(c) {
            if !cur.as_str().is_empty() {
                let mut word = String::new();
                std::mem::swap(&mut cur, &mut word);
                out.push(word);
            } else {
                assert(cur@ == Seq::<char>::empty());
            }
        } else {
            cur.push(c);
        }
        i += 1;
    }
    if !cur.as_str().is_empty() {
        out.push(cur);
    }
    out
}

/// Once a pair has a bad index, no longer sequence of tokens has a table.
pub proof fn lemma_label_table_none(toks: Seq<Seq<char>>, k: int)
    requires
        0 <= k <= toks.len(),
        k % 2 == 0,
        label_table(toks.take(k)) is None,
    ensures
        label_table(toks) is None,
    decreases toks.len(),
{
    let n = toks.len() as int;
    if k == n {
        assert(toks.take(k) == toks);
    } else if n % 2 == 1 {
        assert(toks.drop_last().take(k) == toks.take(k));
        lemma_label_table_none(toks.drop_last(), k);
    } else {
        assert(toks.take(n - 2).take(k) == toks.take(k));
        lemma_label_table_none(toks.take(n - 2), k);
    }
}

/// Builds the label table from the tokens that precede the end-of-table
/// marker, or finds that they denote none.
pub fn try_parse_label_table(table: &Vec<String>) -> (r: Option<LabelTable>)
    ensures
        match r {
            Some(t) => label_table(texts(table@)) == Some(t@),
            None => label_table(texts(table@)) is None,
        },
{
    let ghost toks = texts(table@);
    let mut parsed = LabelTable::new();
    let mut i: usize = 0;
    while i + 1 < table.len()
        invariant
            toks == texts(table@),
            i % 2 == 0,
            i <= table.len(),
            label_table(toks.take(i as int)) == Some(parsed@),
        decreases table.len() - i,
    {
        assert(toks.take(i + 2).take(i as int) == toks.take(i as int));
        match parse_unsigned(table[i + 1].as_str(), usize::MAX) {
            Some(index) => {
                parsed.insert(table[i].clone(), index);
            },
            None => {
                proof {
                    lemma_label_table_none(toks, i + 2);
                }
                return None;
            },
        }
        i += 2;
    }
    proof {
        if i == table.len() {
            assert(toks.take(i as int) == toks);
        }
    }
    Some(parsed)
}

/// Assembles a program text, or says why it is not one.
pub fn try_parse_asm(file: &str) -> (r: Result<Assembly, AsmError>)
    ensures
        match r {
            Ok(a) => assemble(file@) == Ok::<Program, AsmError>(a@),
            Err(e) => assemble(file@) == Err::<Program, AsmError>(e),
        },
{
    let text = chars_of(file);
    let marker = chars_of("/// END COMPILER GENERATED LABEL TABLE ///");
    match find(&text, &marker) {
        None => Err(AsmError::MissingTableEnd),
        Some(at) => {
            proof {
                lemma_find_from(text@, marker@, 0);
            }
            let head = split_words(&text, 0, at);
            let body = split_words(&text, at + marker.len(), text.len());
            match try_parse_label_table(&head) {
                None => Err(AsmError::BadLabelIndex),
                Some(label_table) => Ok(Assembly { label_table, tokens: body }),
            }
        },
    }
}

/// Builds the label table from the tokens that precede the end-of-table
/// marker. The tokens must denote a table; `try_parse_label_table` is for
/// tokens of which that is not known.
pub fn parse_label_table(table: &Vec<String>) -> (parsed: LabelTable)
    requires
        label_table(texts(table@)) is Some,
    ensures
        label_table(texts(table@)) == Some(parsed@),
{
    try_parse_label_table(table).unwrap()
}

/// Assembles a program text. The text must be a program; `try_parse_asm` is
/// for a text of which that is not known.
pub fn parse_asm(file: &str) -> (program: Assembly)
    requires
        assemble(file@) is Ok,
    ensures
        assemble(file@) == Ok::<Program, AsmError>(program@),
{
    try_parse_asm(file).unwrap()
}

} // verus!
