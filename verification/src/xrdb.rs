//! The resource store: a two-tier (universal + per-program) string-keyed
//! configuration map, built from a resource dump of lines
//! `<program-or-*>.<resource>:<value>` and resolved with
//! specific-overrides-general semantics.

use vstd::prelude::*;
use vstd::string::StringExecFns;

use crate::amap::{amap_unique, amap_view, lemma_amap_dom, lemma_amap_index, lemma_amap_push,
    lemma_amap_update};
use crate::text::{spec_lines, spec_split_once, spec_trim, split_lines, split_once_str, str_eq,
    trim_str, views_of};

verus! {

/// Errors of the resource store's construction at the process boundary.
///
/// The store itself never produces these: malformed resource lines are
/// skipped, not fatal. A caller that runs the external query tool reports
/// its failures through this type.
#[derive(Debug)]
pub enum XrdbError {
    /// The external query tool could not be launched.
    Missing,
    /// The tool ran but exited with an error; its diagnostic text.
    Errored(String),
    /// A line could not be parsed.
    Invalid,
    /// The tool's output was not valid text.
    OutputMalformed,
}

impl XrdbError {
    /// The diagnostic text of this error; a tool failure carries the
    /// tool's own words.
    pub fn message(&self) -> (r: String)
        ensures
            (match self {
                XrdbError::Missing => r@
                    == "xrdb binary not found, are you sure you have it installed?"@,
                XrdbError::Errored(e) => r@ == "xrdb exited with error: "@ + e@,
                XrdbError::Invalid => r@ == "failed to parse line"@,
                XrdbError::OutputMalformed => r@ == "could not parse xrdb output to string"@,
            }),
    {
        match self {
            XrdbError::Missing => "xrdb binary not found, are you sure you have it installed?".to_owned(),
            XrdbError::Errored(e) => "xrdb exited with error: ".to_owned().concat(e.as_str()),
            XrdbError::Invalid => "failed to parse line".to_owned(),
            XrdbError::OutputMalformed => "could not parse xrdb output to string".to_owned(),
        }
    }
}

/// The mathematical content of an [`Xrdb`]: the per-program maps and the
/// universal map.
pub ghost struct XrdbView {
    pub db: Map<Seq<char>, Map<Seq<char>, Seq<char>>>,
    pub universal: Map<Seq<char>, Seq<char>>,
}

/// A program's map, or the empty map for a program without entries.
pub open spec fn prog_map(v: XrdbView, program: Seq<char>) -> Map<Seq<char>, Seq<char>> {
    if v.db.contains_key(program) {
        v.db[program]
    } else {
        Map::empty()
    }
}

/// What upserting a program-specific resource does: only that program's
/// map changes, and only at that resource.
pub open spec fn spec_insert(
    v: XrdbView,
    program: Seq<char>,
    res: Seq<char>,
    val: Seq<char>,
) -> XrdbView {
    XrdbView { db: v.db.insert(program, prog_map(v, program).insert(res, val)), universal: v.universal }
}

/// What upserting a universal resource does: only the universal map
/// changes; per-program maps are never touched.
pub open spec fn spec_insert_universal(v: XrdbView, res: Seq<char>, val: Seq<char>) -> XrdbView {
    XrdbView { db: v.db, universal: v.universal.insert(res, val) }
}

/// Two-tier resolution: the program's own value if one exists, else the
/// universal value, else nothing.
pub open spec fn spec_query(v: XrdbView, program: Seq<char>, res: Seq<char>) -> Option<Seq<char>> {
    if v.db.contains_key(program) && v.db[program].contains_key(res) {
        Some(v.db[program][res])
    } else if v.universal.contains_key(res) {
        Some(v.universal[res])
    } else {
        None
    }
}

/// What one dump line contributes: its three fields are split at the first
/// `.` and the first `:` and trimmed; the wildcard program `*` stores
/// universally. A line without both separators is skipped.
pub open spec fn spec_load_line(v: XrdbView, l: Seq<char>) -> XrdbView {
    match spec_split_once(l, '.') {
        None => v,
        Some(pr) => match spec_split_once(pr.1, ':') {
            None => v,
            Some(rv) => {
                let prog = spec_trim(pr.0);
                let res = spec_trim(rv.0);
                let val = spec_trim(rv.1);
                if prog == "*"@ {
                    spec_insert_universal(v, res, val)
                } else {
                    spec_insert(v, prog, res, val)
                }
            },
        },
    }
}

/// The store after loading the lines in order.
pub open spec fn spec_load_lines(v: XrdbView, ls: Seq<Seq<char>>) -> XrdbView
    decreases ls.len(),
{
    if ls.len() == 0 {
        v
    } else {
        spec_load_lines(spec_load_line(v, ls[0]), ls.skip(1))
    }
}

/// The store after loading a whole resource dump.
pub open spec fn spec_read(v: XrdbView, s: Seq<char>) -> XrdbView {
    spec_load_lines(v, spec_lines(s))
}

/// One tier's map: resource names to values.
struct ResMap {
    entries: Vec<(String, String)>,
}

impl View for ResMap {
    type V = Map<Seq<char>, Seq<char>>;

    closed spec fn view(&self) -> Map<Seq<char>, Seq<char>> {
        amap_view(self.pairs())
    }
}

impl ResMap {
    /// The store as key/value pairs.
    closed spec fn pairs(self) -> Seq<(Seq<char>, Seq<char>)> {
        self.entries@.map_values(|p: (String, String)| (p.0@, p.1@))
    }

    /// The store holds each key once.
    closed spec fn wf(self) -> bool {
        amap_unique(self.pairs())
    }

    fn new() -> (r: ResMap)
        ensures
            r.wf(),
            r@ == Map::<Seq<char>, Seq<char>>::empty(),
    {
        let r = ResMap { entries: Vec::new() };
        proof {
            assert(r.pairs() =~= Seq::<(Seq<char>, Seq<char>)>::empty());
            assert(r@ =~= Map::<Seq<char>, Seq<char>>::empty());
        }
        r
    }

    /// Upserts a resource.
    fn put(&mut self, res: &str, val: &str)
        requires
            old(self).wf(),
        ensures
            final(self).wf(),
            final(self)@ == old(self)@.insert(res@, val@),
    {
        let n = self.entries.len();
        let mut i: usize = 0;
        while i < n
            invariant
                i <= n,
                n == self.entries@.len(),
                *self == *old(self),
                old(self).wf(),
                forall|j: int| 0 <= j < i ==> self.entries@[j].0@ != res@,
            decreases n - i,
        {
            if str_eq(self.entries[i].0.as_str(), res) {
                proof {
                    assert(self.pairs()[i as int].0 == res@);
                    lemma_amap_update(self.pairs(), i as int, val@);
                }
                let ghost pre = self;
                self.entries[i] = (res.to_owned(), val.to_owned());
                proof {
                    assert(self.pairs() =~= pre.pairs().update(i as int, (res@, val@)));
                }
                return ;
            }
            i += 1;
        }
        proof {
            assert(forall|j: int| 0 <= j < self.pairs().len() ==> self.pairs()[j].0 != res@);
            lemma_amap_push(self.pairs(), res@, val@);
        }
        let ghost pre = self;
        self.entries.push((res.to_owned(), val.to_owned()));
        proof {
            assert(self.pairs() =~= pre.pairs().push((res@, val@)));
        }
    }

    /// Looks a resource up.
    fn get(&self, res: &str) -> (r: Option<String>)
        requires
            self.wf(),
        ensures
            (match r {
                Some(v) => self@.contains_key(res@) && v@ == self@[res@],
                None => !self@.contains_key(res@),
            }),
    {
        let n = self.entries.len();
        let mut i: usize = 0;
        while i < n
            invariant
                i <= n,
                n == self.entries@.len(),
                self.wf(),
                forall|j: int| 0 <= j < i ==> self.entries@[j].0@ != res@,
            decreases n - i,
        {
            if str_eq(self.entries[i].0.as_str(), res) {
                proof {
                    assert(self.pairs()[i as int] == (res@, self.entries@[i as int].1@));
                    lemma_amap_index(self.pairs(), i as int);
                }
                return Some(self.entries[i].1.clone());
            }
            i += 1;
        }
        proof {
            assert(forall|j: int| 0 <= j < self.pairs().len() ==> self.pairs()[j].0 != res@);
            lemma_amap_dom(self.pairs(), res@);
        }
        None
    }
}

/// Resource database: per-program maps over a universal fallback.
pub struct Xrdb {
    db: Vec<(String, ResMap)>,
    universal: ResMap,
}

impl View for Xrdb {
    type V = XrdbView;

    closed spec fn view(&self) -> XrdbView {
        XrdbView { db: amap_view(self.db_pairs()), universal: self.universal@ }
    }
}

impl Xrdb {
    /// The per-program tier as program/map pairs.
    closed spec fn db_pairs(self) -> Seq<(Seq<char>, Map<Seq<char>, Seq<char>>)> {
        self.db@.map_values(|p: (String, ResMap)| (p.0@, p.1@))
    }

    /// Each program occurs once, and every tier holds its keys once.
    pub closed spec fn wf(self) -> bool {
        amap_unique(self.db_pairs()) && self.universal.wf() && (forall|i: int|
            0 <= i < self.db@.len() ==> self.db@[i].1.wf())
    }

    /// Constructs an empty store.
    pub fn new() -> (r: Xrdb)
        ensures
            r.wf(),
            r@.db == Map::<Seq<char>, Map<Seq<char>, Seq<char>>>::empty(),
            r@.universal == Map::<Seq<char>, Seq<char>>::empty(),
    {
        let r = Xrdb { db: Vec::new(), universal: ResMap::new() };
        proof {
            assert(r.db_pairs() =~= Seq::<(Seq<char>, Map<Seq<char>, Seq<char>>)>::empty());
            assert(r@.db =~= Map::<Seq<char>, Map<Seq<char>, Seq<char>>>::empty());
        }
        r
    }

    /// Upserts a resource under a program, creating the program's map on
    /// first use. A prior value for that (program, resource) pair is
    /// replaced; nothing else changes.
    pub fn insert(&mut self, program: &str, res: &str, val: &str)
        requires
            old(self).wf(),
        ensures
            final(self).wf(),
            final(self)@ == spec_insert(old(self)@, program@, res@, val@),
    {
        let n = self.db.len();
        let mut i: usize = 0;
        while i < n
            invariant
                i <= n,
                n == self.db@.len(),
                *self == *old(self),
                old(self).wf(),
                forall|j: int| 0 <= j < i ==> self.db@[j].0@ != program@,
            decreases n - i,
        {
            if str_eq(self.db[i].0.as_str(), program) {
                proof {
                    assert(self.db_pairs()[i as int].0 == program@);
                    lemma_amap_index(self.db_pairs(), i as int);
                }
                let ghost pre = self;
                let mut e = self.db.remove(i);
                e.1.put(res, val);
                proof {
                    lemma_amap_update(pre.db_pairs(), i as int, e.1@);
                }
                self.db.insert(i, e);
                proof {
                    assert(self.db@ =~= pre.db@.update(i as int, (pre.db@[i as int].0, e.1)));
                    assert(self.db_pairs() =~= pre.db_pairs().update(
                        i as int,
                        (program@, e.1@),
                    ));
                    assert(self@.db =~= spec_insert(pre@, program@, res@, val@).db);
                }
                return ;
            }
            i += 1;
        }
        proof {
            assert(forall|j: int|
                0 <= j < self.db_pairs().len() ==> self.db_pairs()[j].0 != program@);
            lemma_amap_dom(self.db_pairs(), program@);
        }
        let mut m = ResMap::new();
        m.put(res, val);
        let ghost pre = self;
        proof {
            lemma_amap_push(self.db_pairs(), program@, m@);
        }
        self.db.push((program.to_owned(), m));
        proof {
            assert(self.db_pairs() =~= pre.db_pairs().push((program@, m@)));
            assert(prog_map(pre@, program@) =~= Map::<Seq<char>, Seq<char>>::empty());
            assert(self@.db =~= spec_insert(pre@, program@, res@, val@).db);
        }
    }

    /// Upserts a universal resource. Per-program maps are never touched.
    pub fn insert_universal(&mut self, res: &str, val: &str)
        requires
            old(self).wf(),
        ensures
            final(self).wf(),
            final(self)@ == spec_insert_universal(old(self)@, res@, val@),
    {
        let ghost pre = self;
        self.universal.put(res, val);
        proof {
            assert(self.db_pairs() =~= pre.db_pairs());
        }
    }

    /// Resolves a resource: the program's own value if one exists, else
    /// the universal value, else nothing.
    pub fn query(&self, program: &str, res: &str) -> (r: Option<String>)
        requires
            self.wf(),
        ensures
            (match r {
                Some(v) => spec_query(self@, program@, res@) == Some(v@),
                None => spec_query(self@, program@, res@) is None,
            }),
    {
        let n = self.db.len();
        let mut i: usize = 0;
        while i < n
            invariant
                i <= n,
                n == self.db@.len(),
                self.wf(),
                forall|j: int| 0 <= j < i ==> self.db@[j].0@ != program@,
            decreases n - i,
        {
            if str_eq(self.db[i].0.as_str(), program) {
                proof {
                    assert(self.db_pairs()[i as int] == (program@, self.db@[i as int].1@));
                    lemma_amap_index(self.db_pairs(), i as int);
                }
                match self.db[i].1.get(res) {
                    Some(v) => {
                        return Some(v);
                    },
                    None => {
                        return self.universal.get(res);
                    },
                }
            }
            i += 1;
        }
        proof {
            assert(forall|j: int|
                0 <= j < self.db_pairs().len() ==> self.db_pairs()[j].0 != program@);
            lemma_amap_dom(self.db_pairs(), program@);
        }
        self.universal.get(res)
    }

    /// Loads a resource dump, line by line, into the store.
    ///
    /// A line without both separators is skipped; skipping never aborts
    /// the load of subsequent lines.
    pub fn read(&mut self, output: &str)
        requires
            old(self).wf(),
        ensures
            final(self).wf(),
            final(self)@ == spec_read(old(self)@, output@),
    {
        let lines = split_lines(output);
        let ghost ls = views_of(lines@);
        let n = lines.len();
        let mut i: usize = 0;
        proof {
            assert(ls.skip(0) =~= ls);
        }
        while i < n
            invariant
                i <= n,
                n == lines@.len(),
                ls == views_of(lines@),
                ls == spec_lines(output@),
                self.wf(),
                spec_load_lines(old(self)@, ls) == spec_load_lines(self@, ls.skip(i as int)),
            decreases n - i,
        {
            proof {
                assert(ls[i as int] == lines@[i as int]@);
                assert(ls.skip(i as int)[0] == ls[i as int]);
                assert(ls.skip(i as int).skip(1) =~= ls.skip(i as int + 1));
            }
            let ghost pre = self;
            match split_once_str(lines[i].as_str(), '.') {
                None => {},
                Some(pr) => {
                    match split_once_str(pr.1.as_str(), ':') {
                        None => {},
                        Some(rv) => {
                            let prog = trim_str(pr.0.as_str());
                            let res = trim_str(rv.0.as_str());
                            let val = trim_str(rv.1.as_str());
                            if str_eq(prog.as_str(), "*") {
                                self.insert_universal(res.as_str(), val.as_str());
                            } else {
                                self.insert(prog.as_str(), res.as_str(), val.as_str());
                            }
                        },
                    }
                },
            }
            proof {
                assert(self@ == spec_load_line(pre@, ls[i as int]));
            }
            i += 1;
        }
        proof {
            assert(ls.skip(n as int) =~= Seq::<Seq<char>>::empty());
        }
    }
}

/// A program-specific value wins whenever one exists, whatever the
/// universal map holds for the same resource.
pub proof fn lemma_query_prefers_program(v: XrdbView, program: Seq<char>, res: Seq<char>)
    requires
        v.db.contains_key(program),
        v.db[program].contains_key(res),
    ensures
        spec_query(v, program, res) == Some(v.db[program][res]),
{
}

/// Without a program-specific value, the universal value answers.
pub proof fn lemma_query_universal_fallback(v: XrdbView, program: Seq<char>, res: Seq<char>)
    requires
        !(v.db.contains_key(program) && v.db[program].contains_key(res)),
        v.universal.contains_key(res),
    ensures
        spec_query(v, program, res) == Some(v.universal[res]),
{
}

/// Without either tier's value, the resource is not found.
pub proof fn lemma_query_not_found(v: XrdbView, program: Seq<char>, res: Seq<char>)
    requires
        !(v.db.contains_key(program) && v.db[program].contains_key(res)),
        !v.universal.contains_key(res),
    ensures
        spec_query(v, program, res) is None,
{
}

/// Specific overrides general whatever the insertion order: storing a
/// program-specific value and a universal value for the same resource
/// resolves to the program-specific one either way round.
pub proof fn lemma_insert_order_immaterial(
    v: XrdbView,
    program: Seq<char>,
    res: Seq<char>,
    pval: Seq<char>,
    uval: Seq<char>,
)
    ensures
        spec_query(
            spec_insert_universal(spec_insert(v, program, res, pval), res, uval),
            program,
            res,
        ) == Some(pval),
        spec_query(
            spec_insert(spec_insert_universal(v, res, uval), program, res, pval),
            program,
            res,
        ) == Some(pval),
{
}

} // verus!
