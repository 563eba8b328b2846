//! The key translation table: bidirectional lookups between
//! (modifier, key code) pairs and key symbols, built from a keyboard-mapping
//! snapshot of lines `keycode <N> = <sym> <sym> ...`.

use vstd::prelude::*;
use vstd::string::StrSliceExecFns;

use crate::amap::{amap_unique, amap_view, lemma_amap_dom, lemma_amap_index, lemma_amap_push,
    lemma_amap_update};
use crate::keysym::{keysym_of_name, KeySym, Modifier};
use crate::text::{spec_lines, spec_tokens, split_lines, split_tokens, str_eq, views_of};

verus! {

/// Hardware key code.
pub type KeyCode = u8;

/// The addressable unit of one mapping-table cell.
pub type Key = (Modifier, KeyCode);

/// Errors of the key translation table.
#[derive(Debug, PartialEq, Eq, Structural, Clone, Copy)]
pub enum Error {
    /// The external mapping tool could not be run.
    XmodmapRunError,
    /// A mapping line lacked a structurally required field.
    InvalidFormat,
    /// The queried cell was not populated.
    NonExistentKeyCode,
    /// The queried symbol was never recorded.
    NonExistentKeySym,
}

impl Error {
    /// The diagnostic text of this error.
    pub fn message(&self) -> (r: String)
        ensures
            (match self {
                Error::XmodmapRunError => r@
                    == "could not run xmodmap command, do you have it installed?"@,
                Error::InvalidFormat => r@ == "invalid xmodmap format"@,
                Error::NonExistentKeyCode => r@ == "non-existent keycode"@,
                Error::NonExistentKeySym => r@ == "non-existent keysym"@,
            }),
    {
        match self {
            Error::XmodmapRunError => "could not run xmodmap command, do you have it installed?".to_owned(),
            Error::InvalidFormat => "invalid xmodmap format".to_owned(),
            Error::NonExistentKeyCode => "non-existent keycode".to_owned(),
            Error::NonExistentKeySym => "non-existent keysym".to_owned(),
        }
    }
}

/// The mathematical content of a [`KeyTable`]: its two lookup maps.
pub ghost struct KeyTableView {
    pub forward: Map<Key, KeySym>,
    pub reverse: Map<KeySym, Key>,
}

/// The table of a fresh build, before any line is applied.
pub open spec fn empty_view() -> KeyTableView {
    KeyTableView { forward: Map::empty(), reverse: Map::empty() }
}

/// A decimal digit.
pub open spec fn is_digit(c: char) -> bool {
    48 <= c as u32 && c as u32 <= 57
}

/// The number the digit sequence denotes.
pub open spec fn digits_val(s: Seq<char>) -> int
    decreases s.len(),
{
    if s.len() == 0 {
        0
    } else {
        digits_val(s.drop_last()) * 10 + (s.last() as u32 - 48)
    }
}

/// The key code a token denotes: a nonempty run of decimal digits whose
/// value fits in eight bits.
pub open spec fn spec_parse_u8(s: Seq<char>) -> Option<KeyCode> {
    if s.len() > 0 && (forall|i: int| 0 <= i < s.len() ==> is_digit(s[i])) && digits_val(s)
        <= 255 {
        Some(digits_val(s) as u8)
    } else {
        None
    }
}

/// The symbol a token denotes, with the sentinel for anything outside the
/// vocabulary.
pub open spec fn sym_or_none(t: Seq<char>) -> KeySym {
    match keysym_of_name(t) {
        Some(k) => k,
        None => KeySym::KEY_NONE,
    }
}

/// What one mapping line defines: its key code and the symbols of the
/// unmodified and shift columns, or nothing when the line's record
/// structure (the `keycode` keyword, the code, the `=` separator) is
/// broken. Missing or unrecognized symbol tokens resolve to the sentinel.
pub open spec fn spec_parse_line(l: Seq<char>) -> Option<(KeyCode, KeySym, KeySym)> {
    let ts = spec_tokens(l);
    if ts.len() < 3 || ts[0] != "keycode"@ || spec_parse_u8(ts[1]) is None || ts[2] != "="@ {
        None
    } else {
        let kc = spec_parse_u8(ts[1])->Some_0;
        let a = if ts.len() >= 4 {
            sym_or_none(ts[3])
        } else {
            KeySym::KEY_NONE
        };
        let b = if ts.len() >= 5 {
            sym_or_none(ts[4])
        } else {
            KeySym::KEY_NONE
        };
        Some((kc, a, b))
    }
}

/// How one parsed line extends the table: the unmodified and shift cells
/// of its key code, and a reverse entry for each symbol. The reverse
/// entries record the unmodified-column key, and a later line overwrites
/// an earlier one's entry for the same symbol.
pub open spec fn apply_line(v: KeyTableView, kc: KeyCode, a: KeySym, b: KeySym) -> KeyTableView {
    KeyTableView {
        forward: v.forward.insert((Modifier::Key, kc), a).insert((Modifier::ShiftKey, kc), b),
        reverse: v.reverse.insert(a, (Modifier::Key, kc)).insert(b, (Modifier::Key, kc)),
    }
}

/// The table the lines build, applied in order; a single broken line
/// aborts the whole build.
pub open spec fn build_lines(v: KeyTableView, ls: Seq<Seq<char>>) -> Option<KeyTableView>
    decreases ls.len(),
{
    if ls.len() == 0 {
        Some(v)
    } else {
        match spec_parse_line(ls[0]) {
            None => None,
            Some(t) => build_lines(apply_line(v, t.0, t.1, t.2), ls.skip(1)),
        }
    }
}

/// The table a whole mapping snapshot describes.
pub open spec fn spec_key_table(s: Seq<char>) -> Option<KeyTableView> {
    build_lines(empty_view(), spec_lines(s))
}

/// Master table of conversions between keys and key symbols.
pub struct KeyTable {
    forward: Vec<(Modifier, KeyCode, KeySym)>,
    reverse: Vec<(KeySym, Modifier, KeyCode)>,
}

impl View for KeyTable {
    type V = KeyTableView;

    open spec fn view(&self) -> KeyTableView {
        KeyTableView {
            forward: amap_view(self.fwd_pairs()),
            reverse: amap_view(self.rev_pairs()),
        }
    }
}

impl KeyTable {
    /// The forward store as key/value pairs.
    pub closed spec fn fwd_pairs(self) -> Seq<(Key, KeySym)> {
        self.forward@.map_values(|t: (Modifier, KeyCode, KeySym)| ((t.0, t.1), t.2))
    }

    /// The reverse store as key/value pairs.
    pub closed spec fn rev_pairs(self) -> Seq<(KeySym, Key)> {
        self.reverse@.map_values(|t: (KeySym, Modifier, KeyCode)| (t.0, (t.1, t.2)))
    }

    /// Each store holds its keys once.
    pub open spec fn wf(self) -> bool {
        amap_unique(self.fwd_pairs()) && amap_unique(self.rev_pairs())
    }

    /// What [`KeyTable::get_keysym`] returns.
    pub open spec fn spec_get_keysym(self, modifier: Modifier, code: KeyCode) -> Result<
        KeySym,
        Error,
    > {
        if self@.forward.contains_key((modifier, code)) {
            Ok(self@.forward[(modifier, code)])
        } else {
            Err(Error::NonExistentKeyCode)
        }
    }

    /// What [`KeyTable::get_key`] returns.
    pub open spec fn spec_get_key(self, keysym: KeySym) -> Result<Key, Error> {
        if self@.reverse.contains_key(keysym) {
            Ok(self@.reverse[keysym])
        } else {
            Err(Error::NonExistentKeySym)
        }
    }

    /// Sets the forward cell `(modifier, code)` to `sym`.
    fn fwd_insert(&mut self, modifier: Modifier, code: KeyCode, sym: KeySym)
        requires
            old(self).wf(),
        ensures
            final(self).wf(),
            final(self)@.forward == old(self)@.forward.insert((modifier, code), sym),
            final(self)@.reverse == old(self)@.reverse,
    {
        let n = self.forward.len();
        let mut i: usize = 0;
        while i < n
            invariant
                i <= n,
                n == self.forward@.len(),
                *self == *old(self),
                old(self).wf(),
                forall|j: int|
                    0 <= j < i ==> !(self.forward@[j].0 == modifier && self.forward@[j].1
                        == code),
            decreases n - i,
        {
            let e = self.forward[i];
            if e.0 == modifier && e.1 == code {
                proof {
                    assert(self.fwd_pairs()[i as int].0 == (modifier, code));
                    lemma_amap_update(self.fwd_pairs(), i as int, sym);
                }
                let ghost pre = self;
                self.forward[i] = (modifier, code, sym);
                proof {
                    assert(self.fwd_pairs() =~= pre.fwd_pairs().update(
                        i as int,
                        ((modifier, code), sym),
                    ));
                    assert(self.rev_pairs() =~= pre.rev_pairs());
                }
                return ;
            }
            i += 1;
        }
        proof {
            assert(forall|j: int|
                0 <= j < self.fwd_pairs().len() ==> self.fwd_pairs()[j].0 != (modifier, code));
            lemma_amap_push(self.fwd_pairs(), (modifier, code), sym);
        }
        let ghost pre = self;
        self.forward.push((modifier, code, sym));
        proof {
            assert(self.fwd_pairs() =~= pre.fwd_pairs().push(((modifier, code), sym)));
            assert(self.rev_pairs() =~= pre.rev_pairs());
        }
    }

    /// Sets the reverse entry of `sym` to `(modifier, code)`.
    fn rev_insert(&mut self, sym: KeySym, modifier: Modifier, code: KeyCode)
        requires
            old(self).wf(),
        ensures
            final(self).wf(),
            final(self)@.reverse == old(self)@.reverse.insert(sym, (modifier, code)),
            final(self)@.forward == old(self)@.forward,
    {
        let n = self.reverse.len();
        let mut i: usize = 0;
        while i < n
            invariant
                i <= n,
                n == self.reverse@.len(),
                *self == *old(self),
                old(self).wf(),
                forall|j: int| 0 <= j < i ==> self.reverse@[j].0 != sym,
            decreases n - i,
        {
            let e = self.reverse[i];
            if e.0 == sym {
                proof {
                    assert(self.rev_pairs()[i as int].0 == sym);
                    lemma_amap_update(self.rev_pairs(), i as int, (modifier, code));
                }
                let ghost pre = self;
                self.reverse[i] = (sym, modifier, code);
                proof {
                    assert(self.rev_pairs() =~= pre.rev_pairs().update(
                        i as int,
                        (sym, (modifier, code)),
                    ));
                    assert(self.fwd_pairs() =~= pre.fwd_pairs());
                }
                return ;
            }
            i += 1;
        }
        proof {
            assert(forall|j: int| 0 <= j < self.rev_pairs().len() ==> self.rev_pairs()[j].0 != sym);
            lemma_amap_push(self.rev_pairs(), sym, (modifier, code));
        }
        let ghost pre = self;
        self.reverse.push((sym, modifier, code));
        proof {
            assert(self.rev_pairs() =~= pre.rev_pairs().push((sym, (modifier, code))));
            assert(self.fwd_pairs() =~= pre.fwd_pairs());
        }
    }

    /// Builds the table from a keyboard-mapping snapshot.
    ///
    /// Each line populates the unmodified and shift cells of its key code.
    /// A line whose record structure is broken aborts the whole build with
    /// [`Error::InvalidFormat`], and no partial table is returned.
    pub fn new(input: &str) -> (r: Result<KeyTable, Error>)
        ensures
            (match r {
                Ok(t) => t.wf() && spec_key_table(input@) == Some(t@),
                Err(e) => e == Error::InvalidFormat && spec_key_table(input@) is None,
            }),
    {
        let lines = split_lines(input);
        let ghost ls = views_of(lines@);
        let mut table = KeyTable { forward: Vec::new(), reverse: Vec::new() };
        proof {
            assert(table.fwd_pairs() =~= Seq::<(Key, KeySym)>::empty());
            assert(table.rev_pairs() =~= Seq::<(KeySym, Key)>::empty());
            assert(table@.forward =~= empty_view().forward);
            assert(table@.reverse =~= empty_view().reverse);
            assert(ls.skip(0) =~= ls);
        }
        let n = lines.len();
        let mut i: usize = 0;
        while i < n
            invariant
                i <= n,
                n == lines@.len(),
                ls == views_of(lines@),
                ls == spec_lines(input@),
                table.wf(),
                build_lines(empty_view(), ls) == build_lines(table@, ls.skip(i as int)),
            decreases n - i,
        {
            proof {
                assert(ls[i as int] == lines@[i as int]@);
                assert(ls.skip(i as int)[0] == ls[i as int]);
                assert(ls.skip(i as int).skip(1) =~= ls.skip(i as int + 1));
            }
            let toks = split_tokens(lines[i].as_str());
            let ghost ts = spec_tokens(ls[i as int]);
            proof {
                assert(ts == views_of(toks@));
                assert(forall|j: int| 0 <= j < toks@.len() ==> ts[j] == toks@[j]@);
            }
            if toks.len() < 3 {
                return Err(Error::InvalidFormat);
            }
            if !str_eq(toks[0].as_str(), "keycode") {
                return Err(Error::InvalidFormat);
            }
            let kc = match parse_keycode(toks[1].as_str()) {
                Some(v) => v,
                None => {
                    return Err(Error::InvalidFormat);
                },
            };
            if !str_eq(toks[2].as_str(), "=") {
                return Err(Error::InvalidFormat);
            }
            let a = if toks.len() >= 4 {
                match KeySym::from_str(toks[3].as_str()) {
                    Ok(k) => k,
                    Err(_) => KeySym::KEY_NONE,
                }
            } else {
                KeySym::KEY_NONE
            };
            let b = if toks.len() >= 5 {
                match KeySym::from_str(toks[4].as_str()) {
                    Ok(k) => k,
                    Err(_) => KeySym::KEY_NONE,
                }
            } else {
                KeySym::KEY_NONE
            };
            proof {
                assert(spec_parse_line(ls[i as int]) == Some((kc, a, b)));
            }
            let ghost pre = table;
            table.fwd_insert(Modifier::Key, kc, a);
            table.rev_insert(a, Modifier::Key, kc);
            table.fwd_insert(Modifier::ShiftKey, kc, b);
            table.rev_insert(b, Modifier::Key, kc);
            proof {
                assert(table@ == apply_line(pre@, kc, a, b));
            }
            i += 1;
        }
        proof {
            assert(ls.skip(n as int) =~= Seq::<Seq<char>>::empty());
        }
        Ok(table)
    }

    /// Queries the symbol of a populated cell.
    pub fn get_keysym(&self, modifier: Modifier, code: KeyCode) -> (r: Result<KeySym, Error>)
        requires
            self.wf(),
        ensures
            r == self.spec_get_keysym(modifier, code),
    {
        let n = self.forward.len();
        let mut i: usize = 0;
        while i < n
            invariant
                i <= n,
                n == self.forward@.len(),
                self.wf(),
                forall|j: int|
                    0 <= j < i ==> !(self.forward@[j].0 == modifier && self.forward@[j].1
                        == code),
            decreases n - i,
        {
            let e = self.forward[i];
            if e.0 == modifier && e.1 == code {
                proof {
                    assert(self.fwd_pairs()[i as int] == ((modifier, code), e.2));
                    lemma_amap_index(self.fwd_pairs(), i as int);
                }
                return Ok(e.2);
            }
            i += 1;
        }
        proof {
            assert(forall|j: int|
                0 <= j < self.fwd_pairs().len() ==> self.fwd_pairs()[j].0 != (modifier, code));
            lemma_amap_dom(self.fwd_pairs(), (modifier, code));
        }
        Err(Error::NonExistentKeyCode)
    }

    /// Queries the key recorded for a symbol.
    pub fn get_key(&self, keysym: KeySym) -> (r: Result<Key, Error>)
        requires
            self.wf(),
        ensures
            r == self.spec_get_key(keysym),
    {
        let n = self.reverse.len();
        let mut i: usize = 0;
        while i < n
            invariant
                i <= n,
                n == self.reverse@.len(),
                self.wf(),
                forall|j: int| 0 <= j < i ==> self.reverse@[j].0 != keysym,
            decreases n - i,
        {
            let e = self.reverse[i];
            if e.0 == keysym {
                proof {
                    assert(self.rev_pairs()[i as int] == (keysym, (e.1, e.2)));
                    lemma_amap_index(self.rev_pairs(), i as int);
                }
                return Ok((e.1, e.2));
            }
            i += 1;
        }
        proof {
            assert(forall|j: int| 0 <= j < self.rev_pairs().len() ==> self.rev_pairs()[j].0 != keysym);
            lemma_amap_dom(self.rev_pairs(), keysym);
        }
        Err(Error::NonExistentKeySym)
    }
}

/// Parses a decimal key-code token.
fn parse_keycode(s: &str) -> (r: Option<KeyCode>)
    ensures
        r == spec_parse_u8(s@),
{
    let n = s.unicode_len();
    if n == 0 {
        return None;
    }
    let mut val: u32 = 0;
    let mut over: bool = false;
    let mut i: usize = 0;
    proof {
        assert(s@.subrange(0, 0) =~= Seq::<char>::empty());
    }
    while i < n
        invariant
            i <= n,
            n == s@.len(),
            forall|j: int| 0 <= j < i ==> is_digit(s@[j]),
            !over ==> val == digits_val(s@.subrange(0, i as int)) && val <= 255,
            over ==> digits_val(s@.subrange(0, i as int)) > 255,
        decreases n - i,
    {
        let c = s.get_char(i);
        let d = c as u32;
        if d < 48 || d > 57 {
            proof {
                assert(!is_digit(s@[i as int]));
            }
            return None;
        }
        proof {
            assert(s@.subrange(0, i as int + 1).drop_last() =~= s@.subrange(0, i as int));
            assert(s@.subrange(0, i as int + 1).last() == s@[i as int]);
        }
        if over || val * 10 + (d - 48) > 255 {
            over = true;
        } else {
            val = val * 10 + (d - 48);
        }
        i += 1;
    }
    proof {
        assert(s@.subrange(0, n as int) =~= s@);
    }
    if over {
        None
    } else {
        Some(val as u8)
    }
}

/// For every cell recorded during a successful table build, the lookup
/// returns exactly the symbol that was parsed for that cell.
pub proof fn lemma_get_returns_parsed(input: Seq<char>, t: KeyTable, modifier: Modifier, code: KeyCode)
    requires
        t.wf(),
        spec_key_table(input) == Some(t@),
        t@.forward.contains_key((modifier, code)),
    ensures
        t.spec_get_keysym(modifier, code) == Ok::<KeySym, Error>(t@.forward[(modifier, code)]),
{
}

} // verus!
