use vstd::prelude::*;

use crate::error::Error;
use vstd::string::StringExecFns;
use crate::http_parse::{header_name_of, header_value_accepts, parse_header_name, value_ok};

verus! {

/// How malformed entries of a per-call header mapping are treated.
#[derive(Debug, Clone, Copy, PartialEq, Eq)]
pub enum HeaderPolicy {
    /// A malformed entry is dropped and the rest is kept.
    Lenient,
    /// A malformed entry fails the whole call before dispatch.
    Strict,
}

/// One raw entry of a host mapping: a key and a value, each `None` where the
/// host object was not text.
pub type RawHeader = (Option<String>, Option<String>);

/// The header that a raw entry stands for, normalised, or `None` where it
/// is malformed.
pub open spec fn entry_of(p: RawHeader) -> Option<(Seq<char>, Seq<char>)> {
    match p {
        (Some(k), Some(v)) => match header_name_of(k@) {
            Some(n) => if value_ok(v@) {
                Some((n, v@))
            } else {
                None
            },
            None => None,
        },
        _ => None,
    }
}

pub open spec fn find_name(es: Seq<(Seq<char>, Seq<char>)>, n: Seq<char>) -> Option<int> {
    if exists|i: int| 0 <= i < es.len() && es[i].0 == n {
        Some(choose|i: int| 0 <= i < es.len() && es[i].0 == n)
    } else {
        None
    }
}

/// Setting a header: an existing entry of that name takes the new value in
/// its place, a new name goes to the end.
pub open spec fn set_entry(es: Seq<(Seq<char>, Seq<char>)>, n: Seq<char>, v: Seq<char>) -> Seq<
    (Seq<char>, Seq<char>),
> {
    match find_name(es, n) {
        Some(i) => es.update(i, (n, v)),
        None => es.push((n, v)),
    }
}

/// The header overrides that a run of raw entries gives, malformed ones
/// left out, a later entry of a name replacing an earlier one.
pub open spec fn overrides_of(ps: Seq<RawHeader>) -> Seq<(Seq<char>, Seq<char>)>
    decreases ps.len(),
{
    if ps.len() == 0 {
        Seq::empty()
    } else {
        let rest = overrides_of(ps.drop_last());
        match entry_of(ps.last()) {
            Some(e) => set_entry(rest, e.0, e.1),
            None => rest,
        }
    }
}

pub open spec fn all_well_formed(ps: Seq<RawHeader>) -> bool {
    forall|i: int| 0 <= i < ps.len() ==> (#[trigger] entry_of(ps[i])) is Some
}

pub open spec fn names_unique(es: Seq<(Seq<char>, Seq<char>)>) -> bool {
    forall|i: int, j: int| 0 <= i < j < es.len() ==> #[trigger] es[i].0 != #[trigger] es[j].0
}

/// Headers that replace a request's defaults wholesale: normalised names,
/// each at most once, in the order they were first set.
#[derive(Debug, Clone)]
pub struct HeaderList {
    entries: Vec<(String, String)>,
}

impl View for HeaderList {
    type V = Seq<(Seq<char>, Seq<char>)>;

    closed spec fn view(&self) -> Seq<(Seq<char>, Seq<char>)> {
        self.entries@.map_values(|e: (String, String)| (e.0@, e.1@))
    }
}

impl HeaderList {
    pub open spec fn wf(&self) -> bool {
        names_unique(self@)
    }

    pub fn new() -> (r: Self)
        ensures
            r@ == Seq::<(Seq<char>, Seq<char>)>::empty(),
            r.wf(),
    {
        HeaderList { entries: Vec::new() }
    }

    pub fn len(&self) -> (r: usize)
        ensures
            r as int == self@.len(),
    {
        self.entries.len()
    }

    /// The name and value at a position.
    pub fn entry(&self, i: usize) -> (r: (String, String))
        requires
            i < self@.len(),
        ensures
            (r.0@, r.1@) == self@[i as int],
    {
        let e = &self.entries[i];
        (e.0.clone(), e.1.clone())
    }

    /// A copy that holds the same entries.
    pub fn duplicate(&self) -> (r: Self)
        ensures
            r@ == self@,
    {
        let mut v: Vec<(String, String)> = Vec::new();
        let mut i: usize = 0;
        while i < self.entries.len()
            invariant
                0 <= i <= self.entries@.len(),
                v@.len() == i,
                forall|j: int| 0 <= j < i ==> (#[trigger] v@[j].0@, v@[j].1@) == self@[j],
            decreases self.entries@.len() - i,
        {
            let e = &self.entries[i];
            v.push((e.0.clone(), e.1.clone()));
            i = i + 1;
        }
        let r = HeaderList { entries: v };
        assert(r@ =~= self@);
        r
    }

    /// Sets `name` (already normalised) to `value`.
    pub fn set(&mut self, name: String, value: String)
        requires
            old(self).wf(),
        ensures
            final(self).wf(),
            final(self)@ == set_entry(old(self)@, name@, value@),
    {
        let ghost es = self@;
        let mut i: usize = 0;
        while i < self.entries.len()
            invariant
                0 <= i <= self.entries.len(),
                self@ == es,
                es == old(self)@,
                names_unique(es),
                forall|j: int| 0 <= j < i ==> es[j].0 != name@,
            decreases self.entries.len() - i,
        {
            if self.entries[i].0 == name {
                assert(es[i as int].0 == name@);
                assert(find_name(es, name@) == Some(i as int)) by {
                    let k = choose|k: int| 0 <= k < es.len() && es[k].0 == name@;
                    assert(names_unique(es));
                    if k != i as int {
                        assert(es[k].0 == es[i as int].0);
                    }
                }
                self.entries.set(i, (name, value));
                assert(self@ =~= es.update(i as int, (name@, value@)));
                assert(self.wf()) by {
                    assert forall|a: int, b: int| 0 <= a < b < self@.len() implies self@[a].0
                        != self@[b].0 by {
                        assert(self@[a].0 == es[a].0);
                        assert(self@[b].0 == es[b].0);
                    }
                }
                assert(set_entry(es, name@, value@) == es.update(i as int, (name@, value@)));
                return;
            }
            i = i + 1;
        }
        assert(find_name(es, name@) is None);
        self.entries.push((name, value));
        assert(self@ =~= es.push((name@, value@)));
    }

    /// The overrides that a host mapping gives. Under the lenient policy a
    /// malformed entry is dropped; under the strict one it fails the call.
    pub fn from_raw(raw: &Vec<RawHeader>, policy: HeaderPolicy) -> (r: Result<HeaderList, Error>)
        ensures
            r is Err <==> (policy == HeaderPolicy::Strict && !all_well_formed(raw@)),
            r is Err ==> r->Err_0 is Validation,
            r is Ok ==> r->Ok_0.wf() && r->Ok_0@ == overrides_of(raw@),
    {
        let mut list = HeaderList::new();
        let mut i: usize = 0;
        while i < raw.len()
            invariant
                0 <= i <= raw@.len(),
                list.wf(),
                list@ == overrides_of(raw@.subrange(0, i as int)),
                policy == HeaderPolicy::Strict ==> all_well_formed(raw@.subrange(0, i as int)),
            decreases raw@.len() - i,
        {
            let ghost sub = raw@.subrange(0, i as int + 1);
            assert(sub.drop_last() =~= raw@.subrange(0, i as int));
            assert(sub.last() == raw@[i as int]);
            let e = Self::entry_from_raw(&raw[i]);
            match e {
                Some((n, v)) => {
                    list.set(n, v);
                },
                None => {
                    if let HeaderPolicy::Strict = policy {
                        assert(!all_well_formed(raw@)) by {
                            assert(entry_of(raw@[i as int]) is None);
                        }
                        return Err(Error::Validation(String::from_str("malformed header")));
                    }
                },
            }
            proof {
                if policy == HeaderPolicy::Strict {
                    assert forall|j: int| 0 <= j < sub.len() implies (#[trigger] entry_of(
                        sub[j],
                    )) is Some by {
                        if j < i {
                            assert(sub[j] == raw@.subrange(0, i as int)[j]);
                        }
                    }
                }
            }
            i = i + 1;
        }
        assert(raw@.subrange(0, raw@.len() as int) =~= raw@);
        Ok(list)
    }

    fn entry_from_raw(p: &RawHeader) -> (r: Option<(String, String)>)
        ensures
            match r {
                Some(e) => entry_of(*p) == Some((e.0@, e.1@)),
                None => entry_of(*p) is None,
            },
    {
        match p {
            (Some(k), Some(v)) => match parse_header_name(k.as_str()) {
                Some(n) => if header_value_accepts(v.as_str()) {
                    Some((n, v.clone()))
                } else {
                    None
                },
                None => None,
            },
            _ => None,
        }
    }
}

} // verus!
