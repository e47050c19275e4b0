//! The computing half of the transport layer: choosing the primary
//! address from the machine's interface list, splitting a host out of a
//! `host:port` server string, and framing a serialized payload as an HTTP
//! request. Sockets and the interface enumeration itself stay outside the
//! library; the enumeration's result is handed in as plain values.
use vstd::prelude::*;

use crate::text::spec_find_char;
use crate::text::spec_u64_str;
use crate::text::find_char;
use crate::text::lemma_find_char;
use crate::text::u64_to_string;
use vstd::string::StringSliceAdditionalSpecFns;
use vstd::utf8::encode_utf8;

verus! {

/// One interface address as plain values: its family, whether it is a
/// loopback address, and its text.
#[derive(Debug, Clone)]
pub struct IfaceAddr {
    pub is_v4: bool,
    pub is_loopback: bool,
    pub ip: String,
}

/// The mathematical content of one interface address.
pub struct IfaceV {
    pub is_v4: bool,
    pub is_loopback: bool,
    pub ip: Seq<char>,
}

impl View for IfaceAddr {
    type V = IfaceV;

    open spec fn view(&self) -> IfaceV {
        IfaceV { is_v4: self.is_v4, is_loopback: self.is_loopback, ip: self.ip@ }
    }
}

impl DeepView for IfaceAddr {
    type V = IfaceV;

    open spec fn deep_view(&self) -> IfaceV {
        self.view()
    }
}

/// Relies on get_if_addrs::get_if_addrs, converting each interface's
/// address into its family, its loopback flag and its text; nothing when
/// the enumeration itself failed.
#[verifier::external_body]
fn read_interfaces() -> Option<Vec<IfaceAddr>> {
    let ifs = get_if_addrs::get_if_addrs().ok()?;
    Some(ifs.into_iter().map(|i| match i.addr {
        get_if_addrs::IfAddr::V4(a) =>
            IfaceAddr { is_v4: true, is_loopback: a.ip.is_loopback(), ip: a.ip.to_string() },
        get_if_addrs::IfAddr::V6(a) =>
            IfaceAddr { is_v4: false, is_loopback: a.ip.is_loopback(), ip: a.ip.to_string() },
    }).collect())
}

/// Whether an entry qualifies as the primary address of the wanted
/// family: not a loopback address, and of that family when one is wanted.
pub open spec fn spec_iface_matches(e: IfaceV, want_v4: Option<bool>) -> bool {
    !e.is_loopback && (match want_v4 {
        Some(b) => e.is_v4 == b,
        None => true,
    })
}

/// The position of the first qualifying entry, or the length when none
/// qualifies.
pub open spec fn spec_find_iface(es: Seq<IfaceV>, want_v4: Option<bool>) -> int
    decreases es.len(),
{
    if es.len() == 0 {
        0
    } else if spec_iface_matches(es[0], want_v4) {
        0
    } else {
        1 + spec_find_iface(es.drop_first(), want_v4)
    }
}

/// What `spec_find_iface` finds.
proof fn lemma_find_iface(es: Seq<IfaceV>, want_v4: Option<bool>)
    ensures
        0 <= spec_find_iface(es, want_v4) <= es.len(),
        spec_find_iface(es, want_v4) < es.len() ==> spec_iface_matches(
            es[spec_find_iface(es, want_v4)],
            want_v4,
        ),
        forall|k: int|
            0 <= k < spec_find_iface(es, want_v4) ==> !spec_iface_matches(es[k], want_v4),
    decreases es.len(),
{
    if es.len() > 0 && !spec_iface_matches(es[0], want_v4) {
        lemma_find_iface(es.drop_first(), want_v4);
        assert forall|k: int|
            0 <= k < spec_find_iface(es, want_v4) implies !spec_iface_matches(es[k], want_v4) by {
            if k > 0 {
                assert(es.drop_first()[k - 1] == es[k]);
            }
        }
    }
}

/// The primary address of a list of entries: the text of the first
/// qualifying one, or the documented fallback when none qualifies.
pub open spec fn spec_primary_ip(es: Seq<IfaceV>, want_v4: Option<bool>) -> Seq<char> {
    let f = spec_find_iface(es, want_v4);
    if f < es.len() {
        es[f].ip
    } else {
        "<unknown>"@
    }
}

/// Selects the primary address from captured interface entries: the first
/// non-loopback entry of the wanted family, in list order.
#[verifier::loop_isolation(false)]
pub fn select_primary_ip(entries: &Vec<IfaceAddr>, want_v4: Option<bool>) -> (r: String)
    ensures
        r@ == spec_primary_ip(entries.deep_view(), want_v4),
{
    let ghost es = entries.deep_view();
    let ghost f = spec_find_iface(es, want_v4);
    proof {
        lemma_find_iface(es, want_v4);
    }
    let mut i: usize = 0;
    while i < entries.len()
        invariant
            i <= es.len(),
            forall|k: int| 0 <= k < i ==> !spec_iface_matches(es[k], want_v4),
        decreases es.len() - i,
    {
        proof {
            assert(es[i as int] == entries@[i as int]@);
        }
        let e = &entries[i];
        let wanted = match want_v4 {
            Some(b) => e.is_v4 == b,
            None => true,
        };
        if !e.is_loopback && wanted {
            proof {
                if f < i {
                    assert(!spec_iface_matches(es[f], want_v4));
                    assert(false);
                }
                if f > i {
                    assert(!spec_iface_matches(es[i as int], want_v4));
                    assert(false);
                }
            }
            return e.ip.clone();
        }
        i = i + 1;
    }
    proof {
        if f < es.len() {
            assert(!spec_iface_matches(es[f], want_v4));
            assert(false);
        }
    }
    "<unknown>".to_owned()
}

/// Network-facing helpers: address selection and request framing.
pub struct NetworkUtil;

impl NetworkUtil {
    /// The machine's primary address, of either family.
    pub fn get_primary() -> String {
        match read_interfaces() {
            Some(es) => select_primary_ip(&es, None),
            None => "<unknown>".to_owned(),
        }
    }

    /// The machine's primary address of the classic four-octet family.
    pub fn get_primary_ipv4() -> String {
        match read_interfaces() {
            Some(es) => select_primary_ip(&es, Some(true)),
            None => "<unknown>".to_owned(),
        }
    }

    /// The machine's primary address of the sixteen-octet family.
    pub fn get_primary_ipv6() -> String {
        match read_interfaces() {
            Some(es) => select_primary_ip(&es, Some(false)),
            None => "<unknown>".to_owned(),
        }
    }

    /// The host part of a `host:port` server string: everything before the
    /// first colon, or the whole string when it has none.
    pub fn host_of_server(server: &str) -> (r: String)
        ensures
            r@ == server@.take(spec_find_char(server@, ':')),
    {
        let c = find_char(server, ':');
        proof {
            lemma_find_char(server@, ':');
            assert(server@.subrange(0, c as int) =~= server@.take(c as int));
        }
        server.substring_char(0, c).to_owned()
    }

    /// The request that frames a serialized payload: the request line, the
    /// host, the content type, the payload's length in bytes, and the
    /// payload itself.
    pub open spec fn spec_http_request(host: Seq<char>, json: Seq<char>) -> Seq<char> {
        "POST / HTTP/1.1\r\nHost: "@ + host + "\r\nContent-Type: application/json\r\nContent-Length: "@
            + spec_u64_str(encode_utf8(json).len() as int) + "\r\n\r\n"@ + json
    }

    /// Frames a serialized payload as the request the transport sends.
    pub fn build_http_request(host: &str, json: &str) -> (r: String)
        ensures
            r@ == Self::spec_http_request(host@, json@),
    {
        proof {
            reveal_strlit("POST / HTTP/1.1\r\nHost: ");
            reveal_strlit("\r\nContent-Type: application/json\r\nContent-Length: ");
            reveal_strlit("\r\n\r\n");
        }
        let mut s = "POST / HTTP/1.1\r\nHost: ".to_owned();
        s.append(host);
        s.append("\r\nContent-Type: application/json\r\nContent-Length: ");
        let nbytes = json.as_bytes().len();
        proof {
            assert(json.spec_bytes() == encode_utf8(json@));
            assert(nbytes == encode_utf8(json@).len());
        }
        let len = u64_to_string(nbytes as u64);
        s.append(len.as_str());
        s.append("\r\n\r\n");
        s.append(json);
        proof {
            assert(s@ =~= Self::spec_http_request(host@, json@));
        }
        s
    }
}

} // verus!
