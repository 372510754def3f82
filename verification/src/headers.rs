//! A request's header set: name-value pairs, looked up by name without
//! regard to ASCII case, and the upgrade-detection rule built on top of it.

use vstd::prelude::*;

verus! {

/// The code point of `c` with an ASCII upper-case letter folded to lower
/// case; every other character is left as it is.
pub open spec fn lower_code(c: char) -> int {
    if 65 <= c as int && c as int <= 90 {
        c as int + 32
    } else {
        c as int
    }
}

/// Character sequences equal up to ASCII case.
pub open spec fn eq_ignore_case(a: Seq<char>, b: Seq<char>) -> bool {
    a.len() == b.len() && forall|i: int|
        0 <= i < a.len() ==> lower_code(a[i]) == lower_code(b[i])
}

fn lower_code_exec(c: char) -> (r: u32)
    ensures
        r == lower_code(c),
{
    let n = c as u32;
    if 65 <= n && n <= 90 {
        n + 32
    } else {
        n
    }
}

/// Whether two strings are equal up to ASCII case.
pub fn eq_ignore_ascii_case(a: &str, b: &str) -> (r: bool)
    ensures
        r == eq_ignore_case(a@, b@),
{
    let alen = a.unicode_len();
    let blen = b.unicode_len();
    if alen != blen {
        return false;
    }
    for i in 0..alen
        invariant
            alen == a@.len(),
            alen == b@.len(),
            forall|j: int| 0 <= j < i ==> lower_code(a@[j]) == lower_code(b@[j]),
    {
        let ca = a.get_char(i);
        let cb = b.get_char(i);
        if lower_code_exec(ca) != lower_code_exec(cb) {
            return false;
        }
    }
    true
}

/// A set of headers, kept in insertion order. Lookups compare names
/// without regard to ASCII case, as HTTP requires.
pub struct Headers {
    pub entries: Vec<(String, String)>,
}

impl View for Headers {
    type V = Seq<(String, String)>;

    open spec fn view(&self) -> Seq<(String, String)> {
        self.entries@
    }
}

/// The value of the first header whose name equals `name` up to ASCII
/// case, or `None` when no name matches.
pub open spec fn spec_header(hs: Seq<(String, String)>, name: Seq<char>) -> Option<Seq<char>>
    decreases hs.len(),
{
    if hs.len() == 0 {
        None
    } else if eq_ignore_case(hs[0].0@, name) {
        Some(hs[0].1@)
    } else {
        spec_header(hs.drop_first(), name)
    }
}

/// Law: looking a header up under two spellings of the same name, equal
/// up to ASCII case, finds the same value.
pub proof fn lemma_lookup_ignores_name_case(
    hs: Seq<(String, String)>,
    n1: Seq<char>,
    n2: Seq<char>,
)
    requires
        eq_ignore_case(n1, n2),
    ensures
        spec_header(hs, n1) == spec_header(hs, n2),
    decreases hs.len(),
{
    if hs.len() > 0 {
        let head = hs[0].0@;
        if eq_ignore_case(head, n1) {
            assert forall|i: int| 0 <= i < head.len() implies lower_code(head[i]) == lower_code(
                n2[i],
            ) by {
                assert(lower_code(head[i]) == lower_code(n1[i]));
                assert(lower_code(n1[i]) == lower_code(n2[i]));
            }
            assert(eq_ignore_case(head, n2));
        }
        if eq_ignore_case(head, n2) {
            assert forall|i: int| 0 <= i < head.len() implies lower_code(head[i]) == lower_code(
                n1[i],
            ) by {
                assert(lower_code(head[i]) == lower_code(n2[i]));
                assert(lower_code(n1[i]) == lower_code(n2[i]));
            }
            assert(eq_ignore_case(head, n1));
        }
        lemma_lookup_ignores_name_case(hs.drop_first(), n1, n2);
    }
}

/// A request asks for a WebSocket upgrade exactly when it carries a
/// `Connection` header whose value is `upgrade` and an `Upgrade` header
/// whose value is `websocket`, each compared without regard to ASCII case.
pub open spec fn spec_is_upgrade(hs: Seq<(String, String)>) -> bool {
    &&& spec_header(hs, "Connection"@) matches Some(v) && eq_ignore_case(v, "upgrade"@)
    &&& spec_header(hs, "Upgrade"@) matches Some(v) && eq_ignore_case(v, "websocket"@)
}

impl Headers {
    /// An empty header set.
    pub fn new() -> (r: Self)
        ensures
            r@ =~= Seq::<(String, String)>::empty(),
    {
        Headers { entries: Vec::new() }
    }

    /// Appends a header pair at the end.
    pub fn push(&mut self, name: String, value: String)
        ensures
            final(self)@ == old(self)@.push((name, value)),
    {
        self.entries.push((name, value));
    }

    /// Looks a header up by name, without regard to ASCII case; the first
    /// match wins.
    pub fn header(&self, name: &str) -> (r: Option<String>)
        ensures
            match r {
                Some(v) => spec_header(self@, name@) == Some(v@),
                None => spec_header(self@, name@) is None,
            },
    {
        let n = self.entries.len();
        proof {
            assert(self@.skip(0) =~= self@);
        }
        for i in 0..n
            invariant
                n == self.entries.len(),
                spec_header(self@, name@) == spec_header(self@.skip(i as int), name@),
        {
            proof {
                assert(self@.skip(i as int)[0] == self@[i as int]);
            }
            if eq_ignore_ascii_case(self.entries[i].0.as_str(), name) {
                return Some(self.entries[i].1.clone());
            }
            proof {
                assert(self@.skip(i as int).drop_first() =~= self@.skip(i as int + 1));
            }
        }
        proof {
            assert(self@.skip(n as int) =~= Seq::<(String, String)>::empty());
        }
        None
    }

    /// Whether this header set asks for a WebSocket upgrade.
    pub fn is_upgrade(&self) -> (r: bool)
        ensures
            r == spec_is_upgrade(self@),
    {
        let connection_upgrade = match self.header("Connection") {
            Some(v) => eq_ignore_ascii_case(v.as_str(), "upgrade"),
            None => false,
        };
        let upgrade_to_websocket = match self.header("Upgrade") {
            Some(v) => eq_ignore_ascii_case(v.as_str(), "websocket"),
            None => false,
        };
        connection_upgrade && upgrade_to_websocket
    }
}

} // verus!
