//! The registry of web devices — which host serves which device id — and
//! the exact request URL a device update produces. The HTTP call itself is
//! the embedding program's job.

use crate::text::{spec_dec, append_dec};
use vstd::prelude::*;
use vstd::string::{StrSliceExecFns, StringExecFns};

verus! {

/// The host a registry holds for an id: the most recent registration wins.
pub open spec fn spec_host_of(s: Seq<(String, String)>, id: Seq<char>) -> Option<Seq<char>>
    decreases s.len(),
{
    if s.len() == 0 {
        None
    } else if s.last().0@ == id {
        Some(s.last().1@)
    } else {
        spec_host_of(s.drop_last(), id)
    }
}

/// Maps device ids to the host that serves them.
pub struct WebController {
    devices: Vec<(String, String)>,
}

impl WebController {
    /// The registrations in the order they were made.
    pub closed spec fn entries(self) -> Seq<(String, String)> {
        self.devices@
    }

    pub fn new() -> (c: WebController)
        ensures
            c.entries() == Seq::<(String, String)>::empty(),
    {
        WebController { devices: Vec::new() }
    }

    /// Registers every given id as served by `host`; a newer registration
    /// of an id shadows an older one.
    pub fn reg_device(&mut self, ids: Vec<String>, host: String)
        ensures
            final(self).entries() == old(self).entries() + ids@.map_values(
                |id: String| (id, host),
            ),
    {
        let ghost entries0 = self.devices@;
        let mut i: usize = 0;
        while i < ids.len()
            invariant
                i <= ids@.len(),
                self.devices@ == entries0 + ids@.subrange(0, i as int).map_values(
                    |id: String| (id, host),
                ),
            decreases ids@.len() - i,
        {
            let pair = (ids[i].clone(), host.clone());
            self.devices.push(pair);
            proof {
                assert(ids@.subrange(0, i + 1).drop_last() =~= ids@.subrange(0, i as int));
                assert(ids@.subrange(0, i + 1).map_values(|id: String| (id, host)).drop_last()
                    =~= ids@.subrange(0, i as int).map_values(|id: String| (id, host)));
                assert(self.devices@ =~= entries0 + ids@.subrange(0, i + 1).map_values(
                    |id: String| (id, host),
                ));
            }
            i = i + 1;
        }
        proof {
            assert(ids@.subrange(0, ids@.len() as int) =~= ids@);
        }
    }

    /// The host registered for an id, if any.
    pub fn host(&self, id: &str) -> (r: Option<String>)
        ensures
            match r {
                Some(h) => spec_host_of(self.entries(), id@) == Some(h@),
                None => spec_host_of(self.entries(), id@) == Option::<Seq<char>>::None,
            },
    {
        let key = id.to_owned();
        let mut j: usize = self.devices.len();
        proof {
            assert(self.devices@.subrange(0, j as int) =~= self.devices@);
        }
        while j > 0
            invariant
                j <= self.devices@.len(),
                key@ == id@,
                spec_host_of(self.devices@, id@) == spec_host_of(
                    self.devices@.subrange(0, j as int),
                    id@,
                ),
            decreases j,
        {
            let ghost pre = self.devices@.subrange(0, j as int);
            proof {
                assert(pre.len() == j);
                assert(pre.last() == self.devices@[j - 1]);
                assert(pre.drop_last() =~= self.devices@.subrange(0, j - 1));
            }
            if self.devices[j - 1].0 == key {
                proof {
                    assert(pre.last().0@ == id@);
                    assert(spec_host_of(pre, id@) == Some(pre.last().1@));
                }
                return Some(self.devices[j - 1].1.clone());
            }
            proof {
                assert(pre.last().0@ != id@);
                assert(spec_host_of(pre, id@) == spec_host_of(pre.drop_last(), id@));
            }
            j = j - 1;
        }
        proof {
            assert(self.devices@.subrange(0, 0) =~= Seq::<(String, String)>::empty());
        }
        None
    }
}

/// The query text for one argument list: "arg_0=..&arg_1=..&", one clause
/// per argument, each with a trailing ampersand.
pub open spec fn spec_args_query(args: Seq<Seq<char>>) -> Seq<char>
    decreases args.len(),
{
    if args.len() == 0 {
        Seq::empty()
    } else {
        spec_args_query(args.drop_last()) + "arg_"@ + spec_dec((args.len() - 1) as nat) + "="@
            + args.last() + "&"@
    }
}

/// The URL a device update is sent to. The final character of the raw text
/// is dropped: the last clause's ampersand, or the question mark itself
/// when there are no arguments.
pub open spec fn spec_url(host: Seq<char>, id: Seq<char>, args: Seq<Seq<char>>) -> Seq<char> {
    ("http://"@ + host + "/"@ + id + "?"@ + spec_args_query(args)).drop_last()
}

/// Builds the request URL for a device update, e.g.
/// "http://host/lamp?arg_0=ON:100".
pub fn make_url(host: &str, id: &str, args: &Vec<String>) -> (url: String)
    ensures
        url@ == spec_url(host@, id@, args@.map_values(|s: String| s@)),
{
    let ghost views = args@.map_values(|s: String| s@);
    let mut url = "http://".to_owned();
    url.append(host);
    url.append("/");
    url.append(id);
    url.append("?");
    let ghost base = url@;
    let mut i: usize = 0;
    while i < args.len()
        invariant
            i <= args@.len(),
            views == args@.map_values(|s: String| s@),
            url@ == base + spec_args_query(views.subrange(0, i as int)),
        decreases args@.len() - i,
    {
        url.append("arg_");
        append_dec(&mut url, i as u64);
        url.append("=");
        url.append(args[i].as_str());
        url.append("&");
        proof {
            assert(views.subrange(0, i + 1).drop_last() =~= views.subrange(0, i as int));
            assert(views.subrange(0, i + 1).last() == views[i as int]);
            assert(url@ =~= base + spec_args_query(views.subrange(0, i + 1)));
        }
        i = i + 1;
    }
    proof {
        assert(views.subrange(0, views.len() as int) =~= views);
        reveal_strlit("http://");
        assert(url@.len() > 0);
    }
    let n = url.as_str().unicode_len();
    let trimmed = url.as_str().substring_char(0, n - 1).to_owned();
    proof {
        assert(trimmed@ =~= spec_url(host@, id@, views));
    }
    trimmed
}

} // verus!
