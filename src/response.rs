use vstd::prelude::*;

use crate::error::Error;
use crate::http_parse::{header_name_of, opt_view, parse_header_name};

use crate::types::BoxedBytes;
use vstd::string::StringExecFns;

verus! {

/// A response header as the transport delivered it: its normalised name and
/// its value as text, `None` where the value is not visible ASCII.
pub type HeaderEntry = (String, Option<String>);

pub open spec fn entry_view(e: HeaderEntry) -> (Seq<char>, Option<Seq<char>>) {
    (e.0@, opt_view(e.1))
}

/// The value of the first entry named `n`, if any.
pub open spec fn lookup(es: Seq<(Seq<char>, Option<Seq<char>>)>, n: Seq<char>) -> Option<
    Option<Seq<char>>,
>
    decreases es.len(),
{
    if es.len() == 0 {
        None
    } else if es[0].0 == n {
        Some(es[0].1)
    } else {
        lookup(es.drop_first(), n)
    }
}

/// What the host sees of an entry when it walks the headers: the name only
/// where it starts a run of values of that name.
pub open spec fn item_at(es: Seq<(Seq<char>, Option<Seq<char>>)>, i: int) -> (
    Option<Seq<char>>,
    Option<Seq<char>>,
) {
    (
        if i == 0 || es[i - 1].0 != es[i].0 {
            Some(es[i].0)
        } else {
            None
        },
        es[i].1,
    )
}

/// The headers of a response, in the transport's order: the values of one
/// name stand together.
#[derive(Debug)]
pub struct Header {
    entries: Vec<HeaderEntry>,
}

impl View for Header {
    type V = Seq<(Seq<char>, Option<Seq<char>>)>;

    closed spec fn view(&self) -> Seq<(Seq<char>, Option<Seq<char>>)> {
        self.entries@.map_values(|e: HeaderEntry| entry_view(e))
    }
}

fn clone_opt(o: &Option<String>) -> (r: Option<String>)
    ensures
        opt_view(r) == opt_view(*o),
{
    match o {
        Some(s) => Some(s.clone()),
        None => None,
    }
}

impl Header {
    /// Headers from the transport's entries, in its order.
    pub fn from_entries(entries: Vec<HeaderEntry>) -> (r: Header)
        ensures
            r@ == entries@.map_values(|e: HeaderEntry| entry_view(e)),
    {
        Header { entries }
    }

    pub fn len(&self) -> (r: usize)
        ensures
            r as int == self@.len(),
    {
        self.entries.len()
    }

    /// A copy that holds the same entries.
    pub fn duplicate(&self) -> (r: Header)
        ensures
            r@ == self@,
    {
        let mut v: Vec<HeaderEntry> = Vec::new();
        let mut i: usize = 0;
        while i < self.entries.len()
            invariant
                0 <= i <= self.entries@.len(),
                v@.len() == i,
                forall|j: int| 0 <= j < i ==> entry_view(#[trigger] v@[j]) == self@[j],
            decreases self.entries@.len() - i,
        {
            let e = &self.entries[i];
            let c = (e.0.clone(), clone_opt(&e.1));
            assert(entry_view(c) == self@[i as int]);
            v.push(c);
            i = i + 1;
        }
        let r = Header { entries: v };
        assert(r@ =~= self@);
        r
    }

    /// The value of `key`: the first value under its normalised name, with
    /// a value that is not visible ASCII read as empty text. `None` where
    /// the key is no valid name or no entry has it.
    pub fn get(&self, key: &str) -> (r: Option<String>)
        ensures
            opt_view(r) == match header_name_of(key@) {
                None => None,
                Some(n) => match lookup(self@, n) {
                    None => None,
                    Some(Some(v)) => Some(v),
                    Some(None) => Some(Seq::<char>::empty()),
                },
            },
    {
        let n = match parse_header_name(key) {
            Some(n) => n,
            None => return None,
        };
        let ghost es = self@;
        assert(es.subrange(0, es.len() as int) =~= es);
        let mut i: usize = 0;
        while i < self.entries.len()
            invariant
                0 <= i <= self.entries@.len(),
                es == self@,
                header_name_of(key@) == Some(n@),
                lookup(es, n@) == lookup(es.subrange(i as int, es.len() as int), n@),
            decreases self.entries@.len() - i,
        {
            let ghost rest = es.subrange(i as int, es.len() as int);
            assert(rest.drop_first() =~= es.subrange(i as int + 1, es.len() as int));
            assert(rest[0] == entry_view(self.entries@[i as int]));
            if self.entries[i].0 == n {
                assert(lookup(rest, n@) == Some(rest[0].1));
                assert(rest[0].1 == opt_view(self.entries@[i as int].1));
                let out = match &self.entries[i].1 {
                    Some(v) => Some(v.clone()),
                    None => Some(String::new()),
                };
                return out;
            }
            i = i + 1;
        }
        assert(lookup(es.subrange(i as int, es.len() as int), n@) is None);
        None
    }

    /// The entries as the host walks them: each value with its name, the
    /// name left out where the value before had the same one.
    pub fn items(&self) -> (r: Vec<(Option<String>, Option<String>)>)
        ensures
            r@.len() == self@.len(),
            forall|i: int|
                0 <= i < r@.len() ==> (opt_view(#[trigger] r@[i].0), opt_view(r@[i].1))
                    == item_at(self@, i),
    {
        let mut out: Vec<(Option<String>, Option<String>)> = Vec::new();
        let mut i: usize = 0;
        while i < self.entries.len()
            invariant
                0 <= i <= self.entries@.len(),
                out@.len() == i,
                forall|j: int|
                    0 <= j < i ==> (opt_view(#[trigger] out@[j].0), opt_view(out@[j].1))
                        == item_at(self@, j),
            decreases self.entries@.len() - i,
        {
            let starts = i == 0 || self.entries[i - 1].0 != self.entries[i].0;
            let name = if starts {
                Some(self.entries[i].0.clone())
            } else {
                None
            };
            out.push((name, clone_opt(&self.entries[i].1)));
            i = i + 1;
        }
        out
    }
}

/// A fully buffered response.
#[derive(Debug)]
pub struct Response {
    url: String,
    content: BoxedBytes,
    status: u16,
    header: Header,
}

/// A status in the success class.
pub open spec fn is_success(status: u16) -> bool {
    200 <= status < 300
}

impl Response {
    pub closed spec fn url_view(&self) -> Seq<char> {
        self.url@
    }

    pub closed spec fn body(&self) -> Seq<u8> {
        self.content@
    }

    pub closed spec fn status_view(&self) -> u16 {
        self.status
    }

    pub closed spec fn header_view(&self) -> Seq<(Seq<char>, Option<Seq<char>>)> {
        self.header@
    }

    /// The response that a drained body makes. `declared` is the length the
    /// transport announced, if any; a body of another length is a transport
    /// failure, so that no response is ever handed out half read.
    pub fn assemble(url: String, status: u16, header: Header, body: Vec<u8>, declared: Option<u64>) -> (r: Result<
        Response,
        Error,
    >)
        ensures
            r is Err <==> (declared is Some && declared->Some_0 as int != body@.len()),
            r is Err ==> r->Err_0 is Transport,
            r is Ok ==> {
                let resp = r->Ok_0;
                &&& resp.url_view() == url@
                &&& resp.body() == body@
                &&& resp.status_view() == status
                &&& resp.header_view() == header@
            },
    {
        if let Some(n) = declared {
            if n as u128 != body.len() as u128 {
                return Err(Error::Transport(String::from_str("body length differs from the declared one")));
            }
        }
        Ok(Response { url, content: BoxedBytes::from_vec(body), status, header })
    }

    /// The URL the response came from, after redirects.
    pub fn get_url(&self) -> (r: &str)
        ensures
            r@ == self.url_view(),
    {
        self.url.as_str()
    }

    /// The body.
    pub fn get_content(&self) -> (r: &[u8])
        ensures
            r@ == self.body(),
    {
        self.content.as_slice()
    }

    pub fn status(&self) -> (r: u16)
        ensures
            r == self.status_view(),
    {
        self.status
    }

    /// A copy of the headers.
    pub fn headers(&self) -> (r: Header)
        ensures
            r@ == self.header_view(),
    {
        self.header.duplicate()
    }

    /// Whether the status is in the success class (200 to 299).
    pub fn ok(&self) -> (r: bool)
        ensures
            r == is_success(self.status_view()),
    {
        200 <= self.status && self.status < 300
    }
}

} // verus!
