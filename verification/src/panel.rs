//! The decisions of the control panel: the form that adds a deck, the list of
//! decks that it shows from the state the monitor publishes, and what each
//! entry of that list offers and highlights.
use std::collections::VecDeque;

use vstd::prelude::*;
use crate::id_map::{IdMap, keys_unique, map_of, lemma_map_of_entry, lemma_map_of_len};
use crate::message::{
    AddHyperdeckRequest, ClientRequest, HyperdeckConnectionState, HyperdeckMonitorState,
    HyperdeckRecordBay, HyperdeckState, HyperdeckStateView, RecordingState, RemoveHyperdeckRequest,
    ServerEvent,
};
use crate::monitor::{
    NodeWsMessageReceived, after_client_request, after_node_message, is_connection_report_for,
    new_hyperdeck,
};

verus! {

/// Whether the panel shows a deck as reachable.
#[derive(Debug, Clone, Copy, PartialEq, Eq, Structural)]
pub enum HyperdeckStatus {
    Connected,
    Disconnected,
}

/// The status that the panel shows for a connection state.
pub open spec fn status_of(c: HyperdeckConnectionState) -> HyperdeckStatus {
    match c {
        HyperdeckConnectionState::Connected => HyperdeckStatus::Connected,
        HyperdeckConnectionState::Disconnected => HyperdeckStatus::Disconnected,
    }
}

impl From<HyperdeckConnectionState> for HyperdeckStatus {
    fn from(value: HyperdeckConnectionState) -> (r: Self)
        ensures
            value == HyperdeckConnectionState::Connected ==> r == HyperdeckStatus::Connected,
            value == HyperdeckConnectionState::Disconnected ==> r == HyperdeckStatus::Disconnected,
    {
        match value {
            HyperdeckConnectionState::Connected => HyperdeckStatus::Connected,
            HyperdeckConnectionState::Disconnected => HyperdeckStatus::Disconnected,
        }
    }
}

impl vstd::std_specs::convert::FromSpecImpl<HyperdeckConnectionState> for HyperdeckStatus {
    open spec fn obeys_from_spec() -> bool {
        true
    }

    open spec fn from_spec(v: HyperdeckConnectionState) -> Self {
        status_of(v)
    }
}

/// A deck as the panel lists it.
#[derive(Debug)]
pub struct Hyperdeck {
    pub id: String,
    pub name: String,
    /// The address, as std reads it from the text that the monitor published.
    pub ip: core::net::IpAddr,
    pub status: HyperdeckStatus,
    pub recording_status: RecordingState,
    pub slots: IdMap<HyperdeckRecordBay>,
}

/// The mathematical value of a `Hyperdeck`.
#[verifier::ext_equal]
pub struct HyperdeckView {
    pub id: Seq<char>,
    pub name: Seq<char>,
    pub ip: core::net::IpAddr,
    pub status: HyperdeckStatus,
    pub recording_status: RecordingState,
    pub slots: Map<Seq<char>, HyperdeckRecordBay>,
}

impl View for Hyperdeck {
    type V = HyperdeckView;

    open spec fn view(&self) -> HyperdeckView {
        HyperdeckView {
            id: self.id@,
            name: self.name@,
            ip: self.ip,
            status: self.status,
            recording_status: self.recording_status,
            slots: self.slots@,
        }
    }
}

/// The list entry for the published deck `h` with id `id`.
pub open spec fn panel_deck(id: Seq<char>, h: HyperdeckStateView) -> HyperdeckView {
    HyperdeckView {
        id,
        name: h.name,
        ip: published_address(h.ip),
        status: status_of(h.connection_state),
        recording_status: h.recording_status,
        slots: h.slots,
    }
}

/// `list` shows each published deck of `hs` exactly once, and nothing else.
pub open spec fn lists_decks(list: Seq<Hyperdeck>, hs: Map<Seq<char>, HyperdeckStateView>) -> bool {
    &&& list.len() == hs.len()
    &&& forall|i: int|
        0 <= i < list.len() ==> hs.contains_key(#[trigger] list[i].id@) && list[i]@ == panel_deck(
            list[i].id@,
            hs[list[i].id@],
        )
    &&& forall|k: Seq<char>| #[trigger] hs.contains_key(k) ==> exists|i: int| 0 <= i < list.len() && (#[trigger] list[i]).id@ == k
    &&& forall|i: int, j: int|
        0 <= i < list.len() && 0 <= j < list.len() && i != j ==> #[trigger] list[i].id@ != #[trigger] list[j].id@
}

#[verifier::external_type_specification]
#[verifier::external_body]
pub struct ExIpAddr(core::net::IpAddr);

/// The IPv4 or IPv6 address that std reads from `text`, if it reads one.
pub uninterp spec fn spec_parse_ip_addr(text: Seq<char>) -> Option<core::net::IpAddr>;

/// Whether `text` is the text of an IPv4 or IPv6 address, as std reads one.
pub open spec fn spec_is_ip_addr_text(text: Seq<char>) -> bool {
    spec_parse_ip_addr(text) is Some
}

/// The address that std reads from the text `text` of an address.
pub open spec fn published_address(text: Seq<char>) -> core::net::IpAddr {
    spec_parse_ip_addr(text)->0
}

/// Calls std's `FromStr for core::net::IpAddr` (`str::parse`), keeping the
/// address or dropping the error. Claimed: the result depends on the text
/// alone, and is named `spec_parse_ip_addr`; which texts std accepts, and the
/// address it reads, are not stated here.
#[verifier::external_body]
fn parse_ip_addr(text: &str) -> (r: Option<core::net::IpAddr>)
    ensures
        r == spec_parse_ip_addr(text@),
{
    text.parse::<core::net::IpAddr>().ok()
}

/// The IPv4 address `a.b.c.d`.
pub uninterp spec fn spec_ipv4_addr(a: u8, b: u8, c: u8, d: u8) -> core::net::IpAddr;

/// Calls std's `Ipv4Addr::new` and wraps the result as an `IpAddr::V4`.
/// Claimed: the result depends on the four octets alone, and is named
/// `spec_ipv4_addr`.
#[verifier::external_body]
fn ipv4_addr(a: u8, b: u8, c: u8, d: u8) -> (r: core::net::IpAddr)
    ensures
        r == spec_ipv4_addr(a, b, c, d),
{
    core::net::IpAddr::V4(core::net::Ipv4Addr::new(a, b, c, d))
}

/// An ASCII decimal digit.
pub open spec fn is_ascii_digit(c: char) -> bool {
    '0' <= c && c <= '9'
}

/// The number that the decimal digits `s` write.
pub open spec fn decimal_value(s: Seq<char>) -> nat
    decreases s.len(),
{
    if s.len() == 0 {
        0
    } else {
        decimal_value(s.drop_last()) * 10 + ((s.last() as int) - ('0' as int)) as nat
    }
}

/// `s` without a leading `+`, if it has one.
pub open spec fn without_plus(s: Seq<char>) -> Seq<char> {
    if s.len() > 0 && s[0] == '+' {
        s.drop_first()
    } else {
        s
    }
}

/// Every character of `d` is an ASCII decimal digit.
pub open spec fn all_ascii_digits(d: Seq<char>) -> bool {
    forall|i: int| 0 <= i < d.len() ==> is_ascii_digit(#[trigger] d[i])
}

/// The number that `s` writes, if it writes one of at most `max`: an optional
/// `+`, then one or more decimal digits whose value is at most `max`; nothing
/// else. This is how std reads an unsigned integer in radix 10.
pub open spec fn spec_parse_at_most(s: Seq<char>, max: usize) -> Option<usize> {
    let d = without_plus(s);
    if d.len() > 0 && all_ascii_digits(d) && decimal_value(d) <= max {
        Some(decimal_value(d) as usize)
    } else {
        None
    }
}

/// The port number that `s` writes, as std's `FromStr for u16` reads it: an
/// optional `+`, then one or more decimal digits whose value fits in 16 bits;
/// nothing else.
pub open spec fn spec_parse_u16(s: Seq<char>) -> Option<u16> {
    let d = without_plus(s);
    if d.len() > 0 && all_ascii_digits(d) && decimal_value(d) <= 65535 {
        Some(decimal_value(d) as u16)
    } else {
        None
    }
}

/// The index that `s` writes, as std's `FromStr for usize` reads it: an
/// optional `+`, then one or more decimal digits whose value fits in a
/// `usize`; nothing else.
pub open spec fn spec_parse_usize(s: Seq<char>) -> Option<usize> {
    spec_parse_at_most(s, usize::MAX)
}

proof fn lemma_decimal_step(d: Seq<char>, i: int)
    requires
        0 <= i < d.len(),
    ensures
        decimal_value(d.take(i + 1)) == decimal_value(d.take(i)) * 10 + ((d[i] as int) - (
        '0' as int)) as nat,
{
    assert(d.take(i + 1).drop_last() =~= d.take(i));
    assert(d.take(i + 1).last() == d[i]);
}

proof fn lemma_decimal_prefix_le(d: Seq<char>, j: int, k: int)
    requires
        all_ascii_digits(d),
        0 <= j <= k <= d.len(),
    ensures
        decimal_value(d.take(j)) <= decimal_value(d.take(k)),
    decreases k - j,
{
    if j < k {
        lemma_decimal_prefix_le(d, j, k - 1);
        lemma_decimal_step(d, k - 1);
        assert(is_ascii_digit(d[k - 1]));
    }
}

proof fn lemma_without_plus_push(s: Seq<char>, c: char)
    requires
        s.len() > 0,
    ensures
        without_plus(s.push(c)) == without_plus(s).push(c),
{
    assert(s.push(c)[0] == s[0]);
    if s[0] == '+' {
        assert(s.push(c).drop_first() =~= s.drop_first().push(c));
    }
}

proof fn lemma_decimal_push(d: Seq<char>, c: char)
    ensures
        decimal_value(d.push(c)) == decimal_value(d) * 10 + ((c as int) - ('0' as int)) as nat,
{
    assert(d.push(c).drop_last() =~= d);
}

proof fn lemma_all_digits_push(d: Seq<char>, c: char)
    ensures
        all_ascii_digits(d.push(c)) <==> all_ascii_digits(d) && is_ascii_digit(c),
{
    if all_ascii_digits(d.push(c)) {
        assert forall|i: int| 0 <= i < d.len() implies is_ascii_digit(#[trigger] d[i]) by {
            assert(d.push(c)[i] == d[i]);
        }
        assert(d.push(c)[d.len() as int] == c);
    }
    if all_ascii_digits(d) && is_ascii_digit(c) {
        assert forall|i: int| 0 <= i < d.push(c).len() implies is_ascii_digit(#[trigger] d.push(c)[i]) by {
            if i < d.len() {
                assert(d.push(c)[i] == d[i]);
            }
        }
    }
}

/// How a decimal reading with limit `max` goes, character by character, which
/// fixes it on every text: the empty text and a lone `+` write nothing; a
/// digit, alone or after a `+`, writes its value; appending a digit to a text
/// that writes `v` writes `v * 10` plus that digit, unless that exceeds
/// `max`; appending anything else writes nothing; and a text (other than the
/// empty one and a lone `+`) that writes nothing still writes nothing with a
/// character appended.
pub proof fn lemma_decimal_reading_rules(s: Seq<char>, c: char, max: usize, v: usize)
    ensures
        spec_parse_at_most(Seq::<char>::empty(), max) is None,
        spec_parse_at_most(seq!['+'], max) is None,
        is_ascii_digit(c) ==> spec_parse_at_most(seq![c], max) == spec_parse_at_most(
            seq!['+', c],
            max,
        ),
        is_ascii_digit(c) ==> spec_parse_at_most(seq![c], max) == (if (c as int) - 48 <= max {
            Some(((c as int) - 48) as usize)
        } else {
            None
        }),
        !is_ascii_digit(c) ==> spec_parse_at_most(s.push(c), max) is None,
        spec_parse_at_most(s, max) == Some(v) && is_ascii_digit(c) ==> spec_parse_at_most(
            s.push(c),
            max,
        ) == (if v * 10 + ((c as int) - 48) <= max {
            Some((v * 10 + ((c as int) - 48)) as usize)
        } else {
            None
        }),
        spec_parse_at_most(s, max) is None && s.len() > 0 && s != seq!['+']
            ==> spec_parse_at_most(s.push(c), max) is None,
{
    assert(without_plus(seq!['+']) =~= Seq::<char>::empty());
    assert(without_plus(seq!['+', c]) =~= seq![c]);
    if is_ascii_digit(c) {
        assert(without_plus(seq![c]) =~= seq![c]);
        lemma_decimal_push(Seq::<char>::empty(), c);
        assert(Seq::<char>::empty().push(c) =~= seq![c]);
        lemma_all_digits_push(Seq::<char>::empty(), c);
    }
    if s.len() > 0 {
        lemma_without_plus_push(s, c);
        let d = without_plus(s);
        lemma_decimal_push(d, c);
        lemma_all_digits_push(d, c);
        if d.len() == 0 {
            assert(s[0] == '+');
            assert(s =~= seq!['+']);
        }
    } else {
        assert(s.push(c) =~= seq![c]);
        if c == '+' {
            assert(without_plus(seq![c]) =~= Seq::<char>::empty());
        } else {
            assert(without_plus(seq![c]) =~= seq![c]);
            lemma_all_digits_push(Seq::<char>::empty(), c);
            assert(Seq::<char>::empty().push(c) =~= seq![c]);
        }
    }
}

/// A port text writes exactly what a decimal reading with the limit 65535
/// gives, as a `u16`.
pub proof fn lemma_port_reading(s: Seq<char>)
    ensures
        spec_parse_u16(s) == (match spec_parse_at_most(s, 65535) {
            Some(v) => Some(v as u16),
            None => None,
        }),
{
}

/// A record bay id writes exactly what a decimal reading with the largest
/// `usize` as limit gives.
pub proof fn lemma_slot_index_reading(s: Seq<char>)
    ensures
        spec_parse_usize(s) == spec_parse_at_most(s, usize::MAX),
{
}

/// Reads the number that `text` writes, if it writes one of at most `max`.
fn parse_decimal_at_most(text: &str, max: usize) -> (r: Option<usize>)
    ensures
        r == spec_parse_at_most(text@, max),
{
    let ghost s = text@;
    let n = text.unicode_len();
    let mut start: usize = 0;
    if n > 0 && text.get_char(0) == '+' {
        start = 1;
    }
    let ghost d = without_plus(s);
    proof {
        if start == 1 {
            assert(d =~= s.skip(1));
        } else {
            assert(d =~= s.skip(0));
        }
    }
    if start == n {
        return None;
    }
    let mut value: usize = 0;
    let mut i: usize = start;
    assert(d.take(0) =~= Seq::<char>::empty());
    while i < n
        invariant
            s == text@,
            n == s.len(),
            start <= i <= n,
            start <= 1,
            d == s.skip(start as int),
            d == without_plus(s),
            d.len() == n - start,
            value as nat == decimal_value(d.take(i - start)),
            value <= max,
            all_ascii_digits(d.take(i - start)),
        decreases n - i,
    {
        let c = text.get_char(i);
        assert(d[i - start] == c);
        let code = c as u32;
        if code < 48 || code > 57 {
            assert(!all_ascii_digits(d)) by {
                assert(code as int == c as int);
                assert(!is_ascii_digit(d[i - start]));
            }
            return None;
        }
        let digit = (code - 48) as usize;
        proof {
            lemma_decimal_step(d, i - start);
        }
        if digit > max || value > (max - digit) / 10 {
            proof {
                assert(value * 10 + digit > max) by (nonlinear_arith)
                    requires
                        digit > max || value > (max - digit) / 10,
                        digit <= 9,
                ;
                if all_ascii_digits(d) {
                    lemma_decimal_prefix_le(d, i - start + 1, d.len() as int);
                    assert(d.take(d.len() as int) =~= d);
                }
            }
            return None;
        }
        assert(value * 10 + digit <= max) by (nonlinear_arith)
            requires
                digit <= max,
                value <= (max - digit) / 10,
        ;
        value = value * 10 + digit;
        assert(all_ascii_digits(d.take(i - start + 1))) by {
            assert forall|k: int| 0 <= k < d.take(i - start + 1).len() implies is_ascii_digit(
                #[trigger] d.take(i - start + 1)[k],
            ) by {
                if k < i - start {
                    assert(d.take(i - start + 1)[k] == d.take(i - start)[k]);
                }
            }
        }
        i = i + 1;
    }
    assert(d.take(d.len() as int) =~= d);
    Some(value)
}

/// Reads a port number, as std's `FromStr for u16` does.
fn parse_port(text: &str) -> (r: Option<u16>)
    ensures
        r == spec_parse_u16(text@),
{
    match parse_decimal_at_most(text, 65535) {
        Some(v) => Some(v as u16),
        None => None,
    }
}

/// Reads a record bay index, as std's `FromStr for usize` does.
fn parse_slot_index(text: &str) -> (r: Option<usize>)
    ensures
        r == spec_parse_usize(text@),
{
    parse_decimal_at_most(text, usize::MAX)
}

/// The number under which the panel shows the record bay with id `slot_id`:
/// the bay's index, which the id writes, plus one. `None` where the id writes
/// no index, or the index is the largest `usize` and has no successor.
pub fn slot_number(slot_id: &str) -> (r: Option<usize>)
    ensures
        r == (match spec_parse_usize(slot_id@) {
            Some(index) => if index < usize::MAX {
                Some((index + 1) as usize)
            } else {
                None
            },
            None => None,
        }),
{
    match parse_slot_index(slot_id) {
        Some(index) => if index < usize::MAX {
            Some(index + 1)
        } else {
            None
        },
        None => None,
    }
}

/// The inputs of the add form can make a request: the address is an IP
/// address, the name is not empty, and the port is a port number.
pub open spec fn form_valid(name: Seq<char>, ip: Seq<char>, port: Seq<char>) -> bool {
    &&& spec_is_ip_addr_text(ip)
    &&& name.len() > 0
    &&& spec_parse_u16(port) is Some
}

/// The add form is valid exactly when the address is read as an IP address,
/// the name is not empty (whatever else it is), and the port text is read as a
/// port number.
pub proof fn lemma_form_valid_exactly(name: Seq<char>, ip: Seq<char>, port: Seq<char>)
    ensures
        form_valid(name, ip, port) == (spec_parse_ip_addr(ip) is Some && name.len() > 0
            && spec_parse_u16(port) is Some),
{
}

/// The form with which the panel adds a deck.
#[derive(Debug)]
pub struct NewHyperdeckForm {
    pub name: String,
    pub ip: String,
    pub port: String,
}

impl Default for NewHyperdeckForm {
    /// Empty name and address, and the port on which decks listen, `9993`.
    fn default() -> (f: Self)
        ensures
            f.name@ == Seq::<char>::empty(),
            f.ip@ == Seq::<char>::empty(),
            f.port@ == "9993"@,
    {
        NewHyperdeckForm { name: String::new(), ip: String::new(), port: String::from_str("9993") }
    }
}

impl NewHyperdeckForm {
    /// Whether the form can make a request (the panel enables its button).
    pub fn inputs_valid(&self) -> (b: bool)
        ensures
            b == form_valid(self.name@, self.ip@, self.port@),
            b == (spec_parse_ip_addr(self.ip@) is Some && self.name@.len() > 0 && spec_parse_u16(
                self.port@,
            ) is Some),
    {
        parse_ip_addr(self.ip.as_str()).is_some() && !self.name.as_str().is_empty() && parse_port(
            self.port.as_str(),
        ).is_some()
    }

    /// Submits the form: where its inputs are valid, the request that adds the
    /// deck they describe, and the form is reset to its defaults; else nothing,
    /// and the form is left as it was.
    pub fn take_add_request(&mut self) -> (r: Option<ClientRequest>)
        ensures
            form_valid(old(self).name@, old(self).ip@, old(self).port@) ==> {
                &&& r matches Some(ClientRequest::AddHyperdeck(req)) && req.name@ == old(self).name@
                    && req.ip@ == old(self).ip@ && Some(req.port) == spec_parse_u16(old(self).port@)
                &&& final(self).name@ == Seq::<char>::empty()
                &&& final(self).ip@ == Seq::<char>::empty()
                &&& final(self).port@ == "9993"@
            },
            !form_valid(old(self).name@, old(self).ip@, old(self).port@) ==> {
                &&& r is None
                &&& final(self).name@ == old(self).name@
                &&& final(self).ip@ == old(self).ip@
                &&& final(self).port@ == old(self).port@
            },
    {
        if !self.inputs_valid() {
            return None;
        }
        let mut name = String::new();
        core::mem::swap(&mut name, &mut self.name);
        let mut ip = String::new();
        core::mem::swap(&mut ip, &mut self.ip);
        let mut port_text = String::from_str("9993");
        core::mem::swap(&mut port_text, &mut self.port);
        match parse_port(port_text.as_str()) {
            Some(port) => Some(ClientRequest::AddHyperdeck(AddHyperdeckRequest { name, ip, port })),
            None => None,
        }
    }
}

/// The request that removes the listed deck `deck`.
pub fn remove_hyperdeck_request(deck: &Hyperdeck) -> (r: ClientRequest)
    ensures
        r matches ClientRequest::RemoveHyperdeck(req) && req.id@ == deck.id@,
{
    ClientRequest::RemoveHyperdeck(RemoveHyperdeckRequest { id: deck.id.clone() })
}

/// Whether the panel shows the recording state and the record bays of a deck:
/// only for a reachable one.
pub fn shows_recording_details(deck: &Hyperdeck) -> (b: bool)
    ensures
        b == (deck.status == HyperdeckStatus::Connected),
{
    match deck.status {
        HyperdeckStatus::Connected => true,
        HyperdeckStatus::Disconnected => false,
    }
}

/// Whether the remaining recording time of a bay is shown in the warning
/// colour: at most fifteen minutes left, in the "on" phase of the blink.
pub fn slot_time_warning(recording_time_remaining: u64, blink: bool) -> (b: bool)
    ensures
        b == (recording_time_remaining <= 15 * 60 && blink),
{
    !(recording_time_remaining > 15 * 60 || !blink)
}

/// The blink phase after a frame on which `elapsed_secs` whole seconds have
/// passed since the phase last changed, and whether the phase changed now
/// (and its clock restarts).
pub fn blink_step(blink: bool, elapsed_secs: u64) -> (r: (bool, bool))
    ensures
        r == (if elapsed_secs >= 1 { (!blink, true) } else { (blink, false) }),
{
    if elapsed_secs >= 1 {
        (!blink, true)
    } else {
        (blink, false)
    }
}

/// The panel's list entry for the published deck `h` with id `id`.
fn panel_entry(id: String, h: HyperdeckState) -> (d: Hyperdeck)
    requires
        spec_is_ip_addr_text(h.ip@),
    ensures
        d@ == panel_deck(id@, h@),
{
    let HyperdeckState { name, ip, port: _, connection_state, recording_status, slots } = h;
    let address = match parse_ip_addr(ip.as_str()) {
        Some(address) => address,
        None => unreached(),
    };
    Hyperdeck {
        id,
        name,
        ip: address,
        status: HyperdeckStatus::from(connection_state),
        recording_status,
        slots,
    }
}

/// Every published address is the text of an IP address.
pub open spec fn addresses_valid(hs: Map<Seq<char>, HyperdeckStateView>) -> bool {
    forall|k: Seq<char>| #[trigger] hs.contains_key(k) ==> spec_is_ip_addr_text(hs[k].ip)
}

/// The list of decks that the panel shows for a published state whose
/// addresses are all IP addresses.
pub fn hyperdecks_from_state(state: HyperdeckMonitorState) -> (r: Vec<Hyperdeck>)
    requires
        addresses_valid(state@),
    ensures
        lists_decks(r@, state@),
{
    let ghost hs = state@;
    let ghost s0 = state.hyperdecks.entry_seq();
    let mut entries = state.hyperdecks.into_entries();
    let n = entries.len();
    let mut out: Vec<Hyperdeck> = Vec::new();
    let mut i: usize = 0;
    while i < n
        invariant
            n == s0.len(),
            i <= n,
            keys_unique(s0),
            hs == map_of(s0),
            addresses_valid(hs),
            entries@ == s0.skip(i as int),
            out@.len() == i,
            forall|j: int| 0 <= j < i ==> (#[trigger] out@[j])@ == panel_deck(s0[j].0@, s0[j].1@),
        decreases n - i,
    {
        assert(entries@.len() == n - i);
        let (id, h) = entries.remove(0);
        assert(s0.skip(i as int).remove(0) =~= s0.skip(i + 1));
        proof {
            lemma_map_of_entry(s0, i as int);
            assert(hs.contains_key(s0[i as int].0@));
        }
        out.push(panel_entry(id, h));
        i = i + 1;
    }
    proof {
        lemma_map_of_len(s0);
        assert forall|j: int| 0 <= j < out@.len() implies hs.contains_key(#[trigger] out@[j].id@)
            && out@[j]@ == panel_deck(out@[j].id@, hs[out@[j].id@]) by {
            lemma_map_of_entry(s0, j);
        }
        assert forall|k: Seq<char>| #[trigger] hs.contains_key(k) implies exists|j: int|
            0 <= j < out@.len() && (#[trigger] out@[j]).id@ == k by {
            let j = choose|j: int| 0 <= j < s0.len() && (#[trigger] s0[j]).0@ == k;
            assert(out@[j]@ == panel_deck(s0[j].0@, s0[j].1@));
        }
        assert forall|a: int, b: int|
            0 <= a < out@.len() && 0 <= b < out@.len() && a != b implies #[trigger] out@[a].id@
            != #[trigger] out@[b].id@ by {
            assert(out@[a]@ == panel_deck(s0[a].0@, s0[a].1@));
            assert(out@[b]@ == panel_deck(s0[b].0@, s0[b].1@));
        }
    }
    out
}

/// The state that a server event publishes.
pub open spec fn published_state(event: ServerEvent) -> Map<Seq<char>, HyperdeckStateView> {
    match event {
        ServerEvent::HyperdeckMonitorState(s) => s@,
    }
}

/// Whether every address that a server event publishes is the text of an IP
/// address, which the panel needs to list the event's decks.
pub fn server_event_addresses_valid(event: &ServerEvent) -> (b: bool)
    ensures
        b == addresses_valid(published_state(*event)),
{
    match event {
        ServerEvent::HyperdeckMonitorState(state) => {
            let ghost hs = state@;
            let entries = state.hyperdecks.entries();
            let ghost s0 = entries@;
            let n = entries.len();
            let mut i: usize = 0;
            while i < n
                invariant
                    n == s0.len(),
                    entries@ == s0,
                    keys_unique(s0),
                    hs == map_of(s0),
                    hs == published_state(*event),
                    i <= n,
                    forall|j: int| 0 <= j < i ==> spec_is_ip_addr_text((#[trigger] s0[j]).1.ip@),
                decreases n - i,
            {
                if parse_ip_addr(entries[i].1.ip.as_str()).is_none() {
                    proof {
                        lemma_map_of_entry(s0, i as int);
                        assert(hs.contains_key(s0[i as int].0@));
                    }
                    return false;
                }
                i = i + 1;
            }
            proof {
                assert forall|k: Seq<char>| #[trigger] hs.contains_key(k) implies spec_is_ip_addr_text(
                    hs[k].ip,
                ) by {
                    let j = choose|j: int| 0 <= j < s0.len() && (#[trigger] s0[j]).0@ == k;
                    lemma_map_of_entry(s0, j);
                }
            }
            true
        },
    }
}

/// The list of decks that the panel shows for an event of the monitor whose
/// published addresses are all IP addresses.
pub fn receive_server_event(event: ServerEvent) -> (r: Vec<Hyperdeck>)
    requires
        addresses_valid(published_state(event)),
    ensures
        lists_decks(r@, published_state(event)),
{
    match event {
        ServerEvent::HyperdeckMonitorState(state) => hyperdecks_from_state(state),
    }
}

/// A listed deck at 192.168.10.`host` with a single record bay, slot `0`.
fn demo_deck(
    id: &str,
    name: &str,
    host: u8,
    status: HyperdeckStatus,
    recording_status: RecordingState,
    recording_time_remaining: u64,
) -> (d: Hyperdeck)
    ensures
        d@ == demo_view(
            id@,
            name@,
            spec_ipv4_addr(192, 168, 10, host),
            status,
            recording_status,
            recording_time_remaining,
        ),
{
    let mut slots: IdMap<HyperdeckRecordBay> = IdMap::new();
    slots.insert(String::from_str("0"), HyperdeckRecordBay { recording_time_remaining });
    Hyperdeck {
        id: String::from_str(id),
        name: String::from_str(name),
        ip: ipv4_addr(192, 168, 10, host),
        status,
        recording_status,
        slots,
    }
}

/// The entry of a demonstration deck with one record bay, in slot `0`.
pub open spec fn demo_view(
    id: Seq<char>,
    name: Seq<char>,
    ip: core::net::IpAddr,
    status: HyperdeckStatus,
    recording_status: RecordingState,
    recording_time_remaining: u64,
) -> HyperdeckView {
    HyperdeckView {
        id,
        name,
        ip,
        status,
        recording_status,
        slots: Map::<Seq<char>, HyperdeckRecordBay>::empty().insert(
            "0"@,
            HyperdeckRecordBay { recording_time_remaining },
        ),
    }
}

/// The four demonstration decks, in order.
pub open spec fn is_demo_list(r: Seq<Hyperdeck>) -> bool {
    &&& r.len() == 4
    &&& r[0]@ == demo_view(
        "test-1"@,
        "Description: Connected Hyperdeck - Not Recording - Not Much Time"@,
        spec_ipv4_addr(192, 168, 10, 1),
        HyperdeckStatus::Connected,
        RecordingState::NotRecording,
        60,
    )
    &&& r[1]@ == demo_view(
        "test-2"@,
        "Description: Connected Hyperdeck - Recording - Not Much Time"@,
        spec_ipv4_addr(192, 168, 10, 2),
        HyperdeckStatus::Connected,
        RecordingState::Recording,
        60,
    )
    &&& r[2]@ == demo_view(
        "test-3"@,
        "Description: Connected Hyperdeck - Recording - Plenty of Time"@,
        spec_ipv4_addr(192, 168, 10, 3),
        HyperdeckStatus::Connected,
        RecordingState::Recording,
        1800,
    )
    &&& r[3]@ == demo_view(
        "test-4"@,
        "Description: Disconnected Hyperdeck"@,
        spec_ipv4_addr(192, 168, 10, 4),
        HyperdeckStatus::Disconnected,
        RecordingState::NotRecording,
        18000,
    )
}

/// The decks that the panel lists before the monitor has published anything:
/// one of each kind it can show.
pub fn demo_hyperdecks() -> (r: Vec<Hyperdeck>)
    ensures
        is_demo_list(r@),
{
    let mut r: Vec<Hyperdeck> = Vec::new();
    r.push(
        demo_deck(
            "test-1",
            "Description: Connected Hyperdeck - Not Recording - Not Much Time",
            1,
            HyperdeckStatus::Connected,
            RecordingState::NotRecording,
            60,
        ),
    );
    r.push(
        demo_deck(
            "test-2",
            "Description: Connected Hyperdeck - Recording - Not Much Time",
            2,
            HyperdeckStatus::Connected,
            RecordingState::Recording,
            60,
        ),
    );
    r.push(
        demo_deck(
            "test-3",
            "Description: Connected Hyperdeck - Recording - Plenty of Time",
            3,
            HyperdeckStatus::Connected,
            RecordingState::Recording,
            60 * 30,
        ),
    );
    r.push(
        demo_deck(
            "test-4",
            "Description: Disconnected Hyperdeck",
            4,
            HyperdeckStatus::Disconnected,
            RecordingState::NotRecording,
            3600 * 5,
        ),
    );
    r
}

/// Once the monitor has applied a connection report, a panel that lists the
/// published decks shows the reported deck with the reported status, and with
/// the name, address, recording state and bays that it had before.
pub proof fn lemma_panel_follows_connection_report(
    hs: Map<Seq<char>, HyperdeckStateView>,
    msg: NodeWsMessageReceived,
    list: Seq<Hyperdeck>,
    i: int,
)
    requires
        lists_decks(list, after_node_message(hs, msg)),
        0 <= i < list.len(),
        is_connection_report_for(msg, list[i].id@),
    ensures
        hs.contains_key(list[i].id@),
        list[i].status == (if msg is HyperdeckConnected {
            HyperdeckStatus::Connected
        } else {
            HyperdeckStatus::Disconnected
        }),
        list[i].name@ == hs[list[i].id@].name,
        list[i].ip == published_address(hs[list[i].id@].ip),
        list[i].recording_status == hs[list[i].id@].recording_status,
        list[i].slots@ == hs[list[i].id@].slots,
{
}

/// After a deck is added, a panel that lists the published decks shows it,
/// under its new id, with the requested name and the address std reads from
/// the requested address text, as not reachable
/// and not recording.
pub proof fn lemma_panel_lists_added_deck(
    hs: Map<Seq<char>, HyperdeckStateView>,
    add: AddHyperdeckRequest,
    new_id: Seq<char>,
    list: Seq<Hyperdeck>,
)
    requires
        lists_decks(list, after_client_request(hs, ClientRequest::AddHyperdeck(add), new_id)),
    ensures
        exists|i: int|
            0 <= i < list.len() && (#[trigger] list[i]).id@ == new_id && list[i]@ == panel_deck(
                new_id,
                new_hyperdeck(add),
            ) && list[i].name@ == add.name@ && list[i].ip == published_address(add.ip@) && list[i].status
                == HyperdeckStatus::Disconnected && list[i].recording_status
                == RecordingState::NotRecording,
{
    let after = after_client_request(hs, ClientRequest::AddHyperdeck(add), new_id);
    assert(after.contains_key(new_id));
    let i = choose|i: int| 0 <= i < list.len() && (#[trigger] list[i]).id@ == new_id;
    assert(list[i]@ == panel_deck(new_id, new_hyperdeck(add)));
}

/// The request that the panel builds to remove a listed deck takes exactly
/// that deck out of the monitor's state and leaves every other deck as it was.
pub proof fn lemma_panel_removal_removes_listed_deck(
    hs: Map<Seq<char>, HyperdeckStateView>,
    deck: Hyperdeck,
    req: ClientRequest,
    unused_id: Seq<char>,
)
    requires
        req matches ClientRequest::RemoveHyperdeck(r) && r.id@ == deck.id@,
    ensures
        !after_client_request(hs, req, unused_id).contains_key(deck.id@),
        forall|k: Seq<char>|
            k != deck.id@ ==> (#[trigger] after_client_request(hs, req, unused_id).contains_key(k)
                <==> hs.contains_key(k)) && (hs.contains_key(k) ==> after_client_request(
                hs,
                req,
                unused_id,
            )[k] == hs[k]),
{
}

/// A request that the add form produced adds, under the new id, a deck with
/// the form's name and address and the port that its port text writes.
pub proof fn lemma_form_request_adds_described_deck(
    hs: Map<Seq<char>, HyperdeckStateView>,
    name: Seq<char>,
    ip: Seq<char>,
    port: Seq<char>,
    req: ClientRequest,
    new_id: Seq<char>,
)
    requires
        form_valid(name, ip, port),
        req matches ClientRequest::AddHyperdeck(r) && r.name@ == name && r.ip@ == ip && Some(r.port)
            == spec_parse_u16(port),
    ensures
        after_client_request(hs, req, new_id).contains_key(new_id),
        after_client_request(hs, req, new_id)[new_id].name == name,
        after_client_request(hs, req, new_id)[new_id].ip == ip,
        Some(after_client_request(hs, req, new_id)[new_id].port) == spec_parse_u16(port),
        spec_is_ip_addr_text(after_client_request(hs, req, new_id)[new_id].ip),
{
}

/// The control panel's own state: the blink phase of its warnings, the add
/// form, the decks it lists, and the requests waiting to go to the monitor
/// (oldest first). The connection and the clock live with the caller.
#[derive(Debug)]
pub struct HyperdeckMonitorApp {
    pub blink: bool,
    pub form: NewHyperdeckForm,
    pub hyperdecks: Vec<Hyperdeck>,
    pub websocket_message_queue: VecDeque<ClientRequest>,
}

impl Default for HyperdeckMonitorApp {
    /// Blink off, an empty form, the demonstration decks, nothing queued.
    fn default() -> (app: Self)
        ensures
            !app.blink,
            app.form.name@ == Seq::<char>::empty(),
            app.form.ip@ == Seq::<char>::empty(),
            app.form.port@ == "9993"@,
            is_demo_list(app.hyperdecks@),
            app.websocket_message_queue@ == Seq::<ClientRequest>::empty(),
    {
        let hyperdecks = demo_hyperdecks();
        HyperdeckMonitorApp {
            blink: false,
            form: NewHyperdeckForm::default(),
            hyperdecks,
            websocket_message_queue: VecDeque::new(),
        }
    }
}

impl HyperdeckMonitorApp {
    /// The oldest queued request, taken off the queue; the panel sends at
    /// most one per frame.
    pub fn take_outgoing(&mut self) -> (r: Option<ClientRequest>)
        ensures
            old(self).websocket_message_queue@.len() == 0 ==> r is None
                && final(self).websocket_message_queue@ == old(self).websocket_message_queue@,
            old(self).websocket_message_queue@.len() > 0 ==> r == Some(
                old(self).websocket_message_queue@[0],
            ) && final(self).websocket_message_queue@ == old(self).websocket_message_queue@.drop_first(),
            final(self).blink == old(self).blink,
            final(self).form == old(self).form,
            final(self).hyperdecks == old(self).hyperdecks,
    {
        let r = self.websocket_message_queue.pop_front();
        proof {
            if old(self).websocket_message_queue@.len() > 0 {
                assert(self.websocket_message_queue@ =~= old(self).websocket_message_queue@.drop_first());
            }
        }
        r
    }

    /// Takes in an event of the monitor whose published addresses are all IP
    /// addresses: the listed decks become those it publishes.
    pub fn on_server_event(&mut self, event: ServerEvent)
        requires
            addresses_valid(published_state(event)),
        ensures
            lists_decks(final(self).hyperdecks@, published_state(event)),
            final(self).blink == old(self).blink,
            final(self).form == old(self).form,
            final(self).websocket_message_queue == old(self).websocket_message_queue,
    {
        self.hyperdecks = receive_server_event(event);
    }

    /// Takes in any event of the monitor: where its published addresses are
    /// all IP addresses, as `on_server_event`; else the panel is left as it
    /// was. Returns whether the event was taken in.
    pub fn try_on_server_event(&mut self, event: ServerEvent) -> (taken: bool)
        ensures
            taken == addresses_valid(published_state(event)),
            taken ==> lists_decks(final(self).hyperdecks@, published_state(event)),
            !taken ==> final(self).hyperdecks == old(self).hyperdecks,
            final(self).blink == old(self).blink,
            final(self).form == old(self).form,
            final(self).websocket_message_queue == old(self).websocket_message_queue,
    {
        if server_event_addresses_valid(&event) {
            self.on_server_event(event);
            true
        } else {
            false
        }
    }

    /// The add button: where the form's inputs are valid, queues the request
    /// that adds the deck they describe and resets the form; else nothing.
    pub fn submit_new_hyperdeck(&mut self)
        ensures
            form_valid(old(self).form.name@, old(self).form.ip@, old(self).form.port@) ==> {
                &&& final(self).websocket_message_queue@.len() == old(self).websocket_message_queue@.len() + 1
                &&& final(self).websocket_message_queue@.drop_last() == old(self).websocket_message_queue@
                &&& final(self).websocket_message_queue@.last() matches ClientRequest::AddHyperdeck(req)
                    && req.name@ == old(self).form.name@ && req.ip@ == old(self).form.ip@
                    && Some(req.port) == spec_parse_u16(old(self).form.port@)
                &&& final(self).form.name@ == Seq::<char>::empty()
                &&& final(self).form.ip@ == Seq::<char>::empty()
                &&& final(self).form.port@ == "9993"@
            },
            !form_valid(old(self).form.name@, old(self).form.ip@, old(self).form.port@) ==> {
                &&& final(self).websocket_message_queue@ == old(self).websocket_message_queue@
                &&& final(self).form.name@ == old(self).form.name@
                &&& final(self).form.ip@ == old(self).form.ip@
                &&& final(self).form.port@ == old(self).form.port@
            },
            final(self).blink == old(self).blink,
            final(self).hyperdecks == old(self).hyperdecks,
    {
        let taken = self.form.take_add_request();
        match taken {
            Some(req) => {
                self.websocket_message_queue.push_back(req);
                assert(self.websocket_message_queue@.drop_last() =~= old(self).websocket_message_queue@);
            },
            None => {},
        }
    }

    /// The remove button of the listed deck at `index`: queues the request
    /// that removes that deck.
    pub fn request_removal(&mut self, index: usize)
        requires
            index < old(self).hyperdecks@.len(),
        ensures
            final(self).websocket_message_queue@.len() == old(self).websocket_message_queue@.len() + 1,
            final(self).websocket_message_queue@.drop_last() == old(self).websocket_message_queue@,
            final(self).websocket_message_queue@.last() matches ClientRequest::RemoveHyperdeck(req)
                && req.id@ == old(self).hyperdecks@[index as int].id@,
            final(self).blink == old(self).blink,
            final(self).form == old(self).form,
            final(self).hyperdecks == old(self).hyperdecks,
    {
        let req = remove_hyperdeck_request(&self.hyperdecks[index]);
        self.websocket_message_queue.push_back(req);
        assert(self.websocket_message_queue@.drop_last() =~= old(self).websocket_message_queue@);
    }

    /// Advances the blink phase on a frame on which `elapsed_secs` whole
    /// seconds have passed since it last changed; returns whether it changed
    /// (and its clock restarts).
    pub fn tick(&mut self, elapsed_secs: u64) -> (changed: bool)
        ensures
            changed == (elapsed_secs >= 1),
            final(self).blink == (if changed { !old(self).blink } else { old(self).blink }),
            final(self).form == old(self).form,
            final(self).hyperdecks == old(self).hyperdecks,
            final(self).websocket_message_queue == old(self).websocket_message_queue,
    {
        let (blink, changed) = blink_step(self.blink, elapsed_secs);
        self.blink = blink;
        changed
    }
}

/// Each entry of a list that shows the published decks carries its deck's
/// name, the address std reads from its address text, its recording state and
/// its bays, and shows it reachable exactly when it is connected.
pub proof fn lemma_listed_deck_fields(
    list: Seq<Hyperdeck>,
    hs: Map<Seq<char>, HyperdeckStateView>,
    i: int,
)
    requires
        lists_decks(list, hs),
        0 <= i < list.len(),
    ensures
        hs.contains_key(list[i].id@),
        list[i].name@ == hs[list[i].id@].name,
        Some(list[i].ip) == spec_parse_ip_addr(hs[list[i].id@].ip) || spec_parse_ip_addr(
            hs[list[i].id@].ip,
        ) is None,
        (list[i].status == HyperdeckStatus::Connected) == (hs[list[i].id@].connection_state
            == HyperdeckConnectionState::Connected),
        list[i].recording_status == hs[list[i].id@].recording_status,
        list[i].slots@ == hs[list[i].id@].slots,
{
}

/// Whether an event can be listed is exactly whether every published address
/// is read as an IP address.
pub proof fn lemma_addresses_valid_exactly(hs: Map<Seq<char>, HyperdeckStateView>)
    ensures
        addresses_valid(hs) == (forall|k: Seq<char>|
            #[trigger] hs.contains_key(k) ==> spec_parse_ip_addr(hs[k].ip) is Some),
{
}

} // verus!
