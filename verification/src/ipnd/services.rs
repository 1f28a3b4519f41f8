//! The service block that IPND beacons carry: the convergence layer agents a
//! node offers and the user-defined services it advertises.
use vstd::prelude::*;
use std::collections::HashMap;
use vstd::std_specs::iter::IteratorSpec;
use vstd::utf8::{valid_utf8, decode_utf8, encode_utf8, encode_utf8_decode_utf8, encode_utf8_valid_utf8};
use crate::text::{
    decimal, push_decimal, string_pop, string_push, string_push_str, str_parse_i8, i8_parse, is_white_space,
    white_space, spec_i8_value,
};

verus! {

broadcast use vstd::std_specs::hash::group_hash_axioms;

/// Tag of a free-form text service.
pub const CUSTOM_STRING: u8 = 63;

/// Tag of a geographic location service (latitude and longitude).
pub const GEO_LOCATION: u8 = 127;

/// Tag of a battery level service (percent).
pub const BATTERY: u8 = 191;

/// Tag of a postal address service.
pub const ADDRESS: u8 = 255;

/// Whether `tag` is one of the four services this node knows.
pub open spec fn known_service(tag: u8) -> bool {
    tag == CUSTOM_STRING || tag == GEO_LOCATION || tag == BATTERY || tag == ADDRESS
}

/// Whether a word starts at position `i` of `s`: a character that is not
/// white space, at the start or after white space.
pub open spec fn word_starts_at(s: Seq<char>, i: int) -> bool {
    !is_white_space(s[i]) && (i == 0 || is_white_space(s[i - 1]))
}

/// The number of words in `s`, as `str::split_whitespace` separates them.
pub open spec fn word_count(s: Seq<char>) -> nat
    decreases s.len(),
{
    if s.len() == 0 {
        0
    } else {
        word_count(s.drop_last()) + if word_starts_at(s, s.len() - 1) {
            1nat
        } else {
            0nat
        }
    }
}

proof fn lemma_word_count_prefix(s: Seq<char>, i: int)
    requires
        0 <= i < s.len(),
    ensures
        word_count(s.take(i + 1)) == word_count(s.take(i)) + if word_starts_at(s, i) {
            1nat
        } else {
            0nat
        },
{
    let t = s.take(i + 1);
    assert(t.drop_last() =~= s.take(i));
    assert(word_starts_at(t, i) == word_starts_at(s, i));
}

/// The number of words in `s`, counted up to `cap`.
fn count_words_up_to(s: &str, cap: usize) -> (r: usize)
    ensures
        r == if word_count(s@) < cap {
            word_count(s@)
        } else {
            cap as nat
        },
{
    let mut count: usize = 0;
    let mut after_white = true;
    for c in it: s.chars()
        invariant
            it.seq() == s@,
            after_white == (it.index() == 0 || is_white_space(s@[it.index() - 1])),
            count == if word_count(s@.take(it.index())) < cap {
                word_count(s@.take(it.index()))
            } else {
                cap as nat
            },
    {
        let white = white_space(c);
        proof {
            lemma_word_count_prefix(s@, it.index());
        }
        if !white && after_white && count < cap {
            count = count + 1;
        }
        after_white = white;
    }
    assert(s@.take(s@.len() as int) =~= s@);
    count
}

/// The words of `s`, as `str::split_whitespace` separates them.
pub open spec fn words(s: Seq<char>) -> Seq<Seq<char>>
    decreases s.len(),
{
    if s.len() == 0 {
        Seq::empty()
    } else {
        let w = words(s.drop_last());
        if is_white_space(s.last()) {
            w
        } else if word_starts_at(s, s.len() - 1) {
            w.push(seq![s.last()])
        } else {
            w.update(w.len() - 1, w.last().push(s.last()))
        }
    }
}

proof fn lemma_words(s: Seq<char>)
    ensures
        words(s).len() == word_count(s),
        s.len() > 0 && !is_white_space(s.last()) ==> words(s).len() > 0,
    decreases s.len(),
{
    if s.len() > 0 {
        lemma_words(s.drop_last());
    }
}

pub open spec fn strings_view(v: Seq<String>) -> Seq<Seq<char>> {
    v.map_values(|x: String| x@)
}

/// The words of `s`, in order.
fn split_words(s: &str) -> (r: Vec<String>)
    ensures
        strings_view(r@) == words(s@),
{
    let mut out: Vec<String> = Vec::new();
    let mut after_white = true;
    for c in it: s.chars()
        invariant
            it.seq() == s@,
            after_white == (it.index() == 0 || is_white_space(s@[it.index() - 1])),
            strings_view(out@) == words(s@.take(it.index())),
    {
        let ghost i = it.index();
        let ghost t = s@.take(i + 1);
        proof {
            assert(t.drop_last() =~= s@.take(i));
            assert(t.last() == c);
            assert(word_starts_at(t, i) == word_starts_at(s@, i));
            lemma_words(t.drop_last());
        }
        let white = white_space(c);
        if !white {
            if after_white {
                let mut w = String::new();
                string_push(&mut w, c);
                out.push(w);
                proof {
                    assert(strings_view(out@) =~= words(s@.take(i)).push(seq![c]));
                }
            } else {
                let ghost before = out@;
                let mut w = out.pop().unwrap();
                string_push(&mut w, c);
                out.push(w);
                proof {
                    assert(strings_view(before).len() > 0);
                    assert(strings_view(out@) =~= strings_view(before).update(
                        strings_view(before).len() - 1,
                        strings_view(before).last().push(c),
                    ));
                }
            }
        }
        after_white = white;
    }
    assert(s@.take(s@.len() as int) =~= s@);
    out
}

pub open spec fn utf8_text_view(r: Option<String>) -> Option<Seq<char>> {
    match r {
        Some(s) => Some(s@),
        None => None,
    }
}

/// Calls `String::from_utf8`. Claimed, as the standard library documents:
/// the text exactly when the bytes are valid UTF-8, and then the decoded text.
#[verifier::external_body]
fn string_from_utf8(b: &[u8]) -> (r: Option<String>)
    ensures
        utf8_text_view(r) == if valid_utf8(b@) {
            Some(decode_utf8(b@))
        } else {
            None::<Seq<char>>
        },
{
    match String::from_utf8(b.to_vec()) {
        Ok(s) => Some(s),
        Err(_) => None,
    }
}

/// A service block as values: the agents (name and port) and the services
/// (tag and payload).
pub struct ServiceBlockView {
    pub clas: Seq<(Seq<char>, Option<u16>)>,
    pub services: Map<u8, Seq<u8>>,
}

pub open spec fn clas_view(v: Seq<(String, Option<u16>)>) -> Seq<(Seq<char>, Option<u16>)> {
    v.map_values(|p: (String, Option<u16>)| (p.0@, p.1))
}

pub open spec fn services_view(m: Map<u8, Vec<u8>>) -> Map<u8, Seq<u8>> {
    m.map_values(|v: Vec<u8>| v@)
}

/// The services that a beacon advertises besides its node identity.
#[derive(Debug, Clone)]
pub struct ServiceBlock {
    clas: Vec<(String, Option<u16>)>,
    services: HashMap<u8, Vec<u8>>,
}

impl View for ServiceBlock {
    type V = ServiceBlockView;

    closed spec fn view(&self) -> ServiceBlockView {
        ServiceBlockView { clas: clas_view(self.clas@), services: services_view(self.services@) }
    }
}

/// The message for a text service longer than 64 bytes.
pub open spec fn too_big_message() -> Seq<char> {
    "The provided custom message is to big. Aim for less than 64 characters"@
}

/// The message for a location with fewer than two numbers.
pub open spec fn location_message() -> Seq<char> {
    "Not enough arguments provided to represent geographical location"@
}

/// The message for a battery level outside 0 to 100.
pub open spec fn battery_range_message() -> Seq<char> {
    "Provided number can not be used to represent battery level. Please provide a number between 0 and 100"@
}

/// The start of the message for a battery level that is not a number.
pub open spec fn battery_parse_message() -> Seq<char> {
    "Could not parse provided argument into an integer. "@
}

/// The message for an address without exactly five words.
pub open spec fn address_message() -> Seq<char> {
    "Can not derive address from provided arguments. Argument order is: Street HouseNumber PostalNumber City CountryCode"@
}

/// The message for a tag that names no known service.
pub open spec fn undefined_tag_message() -> Seq<char> {
    "This custom tag is not yet defined. Please refrain from using it until added."@
}

/// What building the service `tag` from the text `payload` gives; `location`
/// is the encoding of the two numbers of a location, which the caller
/// computes.
pub open spec fn spec_build_custom_service(tag: u8, payload: Seq<char>, location: Seq<u8>) -> Result<
    (u8, Seq<u8>),
    Seq<char>,
> {
    if tag == CUSTOM_STRING {
        if encode_utf8(payload).len() > 64 {
            Err(too_big_message())
        } else {
            Ok((tag, encode_utf8(payload)))
        }
    } else if tag == GEO_LOCATION {
        if word_count(payload) < 2 {
            Err(location_message())
        } else {
            Ok((tag, location))
        }
    } else if tag == BATTERY {
        match i8_parse(payload) {
            Ok(v) => if 0 <= v <= 100 {
                Ok((tag, seq![v as u8]))
            } else {
                Err(battery_range_message())
            },
            Err(e) => Err(battery_parse_message() + e),
        }
    } else if tag == ADDRESS {
        if word_count(payload) == 5 {
            Ok((tag, encode_utf8(payload)))
        } else {
            Err(address_message())
        }
    } else {
        Err(undefined_tag_message())
    }
}

/// An address is accepted exactly when its text has five words, as
/// `split_whitespace` separates them, and is then carried as the text's
/// UTF-8 bytes; a text of fewer or more words is refused with the address
/// message.
pub proof fn law_address_five_words(payload: Seq<char>, location: Seq<u8>)
    ensures
        spec_build_custom_service(ADDRESS, payload, location) is Ok <==> words(payload).len() == 5,
        words(payload).len() == 5 ==> spec_build_custom_service(ADDRESS, payload, location) == Ok::<
            (u8, Seq<u8>),
            Seq<char>,
        >((ADDRESS, encode_utf8(payload))),
        words(payload).len() != 5 ==> spec_build_custom_service(ADDRESS, payload, location) == Err::<
            (u8, Seq<u8>),
            Seq<char>,
        >(address_message()),
{
    lemma_words(payload);
}

/// What each tag accepts. A custom text is accepted up to 64 bytes of
/// UTF-8 and carried as those bytes; a location needs at least two words
/// and carries the caller's encoding of its numbers; a battery level is
/// accepted exactly when the text is an `i8` from 0 to 100, carried as
/// that one byte; an unknown tag is refused.
pub proof fn law_custom_service_tags(tag: u8, payload: Seq<char>, location: Seq<u8>)
    ensures
        tag == CUSTOM_STRING ==> (spec_build_custom_service(tag, payload, location) is Ok
            <==> encode_utf8(payload).len() <= 64),
        tag == CUSTOM_STRING && encode_utf8(payload).len() <= 64 ==> spec_build_custom_service(
            tag,
            payload,
            location,
        ) == Ok::<(u8, Seq<u8>), Seq<char>>((CUSTOM_STRING, encode_utf8(payload))),
        tag == GEO_LOCATION ==> (spec_build_custom_service(tag, payload, location) is Ok
            <==> words(payload).len() >= 2),
        tag == GEO_LOCATION && words(payload).len() >= 2 ==> spec_build_custom_service(
            tag,
            payload,
            location,
        ) == Ok::<(u8, Seq<u8>), Seq<char>>((GEO_LOCATION, location)),
        tag == BATTERY ==> (spec_build_custom_service(tag, payload, location) is Ok <==> (
        spec_i8_value(payload) matches Some(v) && 0 <= v <= 100)),
        tag == BATTERY && (spec_i8_value(payload) matches Some(v) && 0 <= v <= 100) ==> spec_build_custom_service(
            tag,
            payload,
            location,
        ) == Ok::<(u8, Seq<u8>), Seq<char>>((BATTERY, seq![spec_i8_value(payload).unwrap() as u8])),
        !known_service(tag) ==> spec_build_custom_service(tag, payload, location) == Err::<
            (u8, Seq<u8>),
            Seq<char>,
        >(undefined_tag_message()),
        spec_build_custom_service(tag, payload, location) matches Ok((t, _)) ==> t == tag,
{
    lemma_words(payload);
}

pub open spec fn built_view(r: Result<(u8, Vec<u8>), String>) -> Result<(u8, Seq<u8>), Seq<char>> {
    match r {
        Ok((t, b)) => Ok((t, b@)),
        Err(e) => Err(e@),
    }
}

/// A battery level as `format!("{}", ..)` writes an `i8`.
pub open spec fn signed_decimal(v: i8) -> Seq<char> {
    if v < 0 {
        seq!['-'] + decimal((0 - v) as nat)
    } else {
        decimal(v as nat)
    }
}

/// The text that IPND shows for the payload of a known service; the text of
/// a location is the caller's.
pub open spec fn service_text(tag: u8, payload: Seq<u8>, location: Seq<char>) -> Seq<char> {
    if tag == GEO_LOCATION {
        location
    } else if tag == BATTERY {
        signed_decimal(payload[0] as i8)
    } else {
        decode_utf8(payload)
    }
}

/// Whether each known service's payload can be shown: text services hold
/// UTF-8, a location at least eight bytes, a battery level at least one.
pub open spec fn services_showable(services: Map<u8, Seq<u8>>) -> bool {
    &&& services.contains_key(CUSTOM_STRING) ==> valid_utf8(services[CUSTOM_STRING])
    &&& services.contains_key(ADDRESS) ==> valid_utf8(services[ADDRESS])
    &&& services.contains_key(GEO_LOCATION) ==> services[GEO_LOCATION].len() >= 8
    &&& services.contains_key(BATTERY) ==> services[BATTERY].len() >= 1
}

/// The known services of `services`, each with its text.
pub open spec fn spec_convert_services(services: Map<u8, Seq<u8>>, location: Seq<char>) -> Map<
    u8,
    Seq<char>,
> {
    Map::new(
        |t: u8| services.contains_key(t) && known_service(t),
        |t: u8| service_text(t, services[t], location),
    )
}

pub open spec fn texts_view(m: Map<u8, String>) -> Map<u8, Seq<char>> {
    m.map_values(|s: String| s@)
}

fn push_signed_decimal(s: &mut String, v: i8)
    ensures
        final(s)@ == old(s)@ + signed_decimal(v),
{
    if v < 0 {
        string_push(s, '-');
        let m: u64 = (0 - (v as i64)) as u64;
        push_decimal(s, m);
        assert(final(s)@ =~= old(s)@ + signed_decimal(v));
    } else {
        push_decimal(s, v as u64);
    }
}

/// What a built service shows again: the payload of a text or address
/// service reads back as the text it was built from, and a battery service
/// as the level it was built from, in decimal; every built service carries
/// the tag it was built for, a known one, and can be shown and displayed.
pub proof fn law_built_service_shown(tag: u8, payload: Seq<char>, location: Seq<u8>)
    requires
        spec_build_custom_service(tag, payload, location) is Ok,
        tag == GEO_LOCATION ==> location.len() == 8,
    ensures
        known_service(tag),
        spec_build_custom_service(tag, payload, location)->Ok_0.0 == tag,
        services_displayable(
            Map::empty().insert(tag, spec_build_custom_service(tag, payload, location)->Ok_0.1),
        ),
        tag == CUSTOM_STRING || tag == ADDRESS ==> service_text(
            tag,
            spec_build_custom_service(tag, payload, location)->Ok_0.1,
            Seq::empty(),
        ) == payload,
        tag == BATTERY ==> i8_parse(payload) is Ok && service_text(
            tag,
            spec_build_custom_service(tag, payload, location)->Ok_0.1,
            Seq::empty(),
        ) == decimal(i8_parse(payload)->Ok_0 as nat),
{
    encode_utf8_decode_utf8(payload);
    encode_utf8_valid_utf8(payload);
    if tag == BATTERY {
        let v = i8_parse(payload)->Ok_0;
        assert(0 <= v <= 100);
        assert((v as u8) as i8 == v);
    }
}

/// The line that shows the agent at position `i` of a service block.
pub open spec fn cla_line(i: nat, name: Seq<char>, port: Option<u16>) -> Seq<char> {
    decimal(i) + ". CLA: Name = "@ + name + match port {
        Some(p) => " Port = "@ + decimal(p as nat),
        None => Seq::empty(),
    } + "\n"@
}

/// The lines that show the agents, numbered from 0 in their order.
pub open spec fn cla_lines(clas: Seq<(Seq<char>, Option<u16>)>) -> Seq<char>
    decreases clas.len(),
{
    if clas.len() == 0 {
        Seq::empty()
    } else {
        cla_lines(clas.drop_last()) + cla_line((clas.len() - 1) as nat, clas.last().0, clas.last().1)
    }
}

/// The line that shows the service `tag` at position `i`; a location shows
/// the caller's texts of its latitude and longitude, and a service of an
/// unknown tag shows nothing.
pub open spec fn service_line(i: nat, tag: u8, payload: Seq<u8>, latitude: Seq<char>, longitude: Seq<char>) -> Seq<char> {
    let head = decimal(i) + ". Tag = "@ + decimal(tag as nat);
    if tag == CUSTOM_STRING {
        head + " Custom String Message: "@ + decode_utf8(payload) + "\n"@
    } else if tag == GEO_LOCATION {
        head + " Geographic location service. Current location at: Latitude "@ + latitude
            + " Longitude "@ + longitude + "\n"@
    } else if tag == BATTERY {
        head + " Battery service. Battery level at "@ + signed_decimal(payload[0] as i8) + "%\n"@
    } else if tag == ADDRESS {
        let w = words(decode_utf8(payload));
        head + " Address service. Street "@ + w[0] + "; House Number "@ + w[1] + "; Postal Number "@
            + w[2] + "; City "@ + w[3] + "; Country Code "@ + w[4] + "\n"@
    } else {
        Seq::empty()
    }
}

/// The lines that show the services in the order of `entries`, numbered
/// from 0.
pub open spec fn service_lines(entries: Seq<(u8, Seq<u8>)>, latitude: Seq<char>, longitude: Seq<char>) -> Seq<char>
    decreases entries.len(),
{
    if entries.len() == 0 {
        Seq::empty()
    } else {
        service_lines(entries.drop_last(), latitude, longitude) + service_line(
            (entries.len() - 1) as nat,
            entries.last().0,
            entries.last().1,
            latitude,
            longitude,
        )
    }
}

pub open spec fn entries_view(s: Seq<(&u8, &Vec<u8>)>) -> Seq<(u8, Seq<u8>)> {
    s.map_values(|p: (&u8, &Vec<u8>)| (*p.0, p.1@))
}

/// Whether `entries` lists the services of `m`, each once, in some order.
pub open spec fn lists_services(entries: Seq<(u8, Seq<u8>)>, m: Map<u8, Seq<u8>>) -> bool {
    &&& entries.len() == m.dom().len()
    &&& forall|i: int| 0 <= i < entries.len() ==> m.contains_key(#[trigger] entries[i].0) && m[entries[i].0] == entries[i].1
    &&& forall|i: int, j: int| 0 <= i < j < entries.len() ==> #[trigger] entries[i].0 != #[trigger] entries[j].0
}

/// The text that shows a service block whose services come in the order of
/// `entries`, without its last character.
pub open spec fn block_text(clas: Seq<(Seq<char>, Option<u16>)>, entries: Seq<(u8, Seq<u8>)>, latitude: Seq<char>, longitude: Seq<char>) -> Seq<char> {
    ("ConvergencyLayerAgents:\n"@ + cla_lines(clas) + "Other services:\n"@ + service_lines(entries, latitude, longitude)).drop_last()
}

/// Whether each service's line can be written: `services_showable`, and an
/// address holds at least five words.
pub open spec fn services_displayable(services: Map<u8, Seq<u8>>) -> bool {
    &&& services_showable(services)
    &&& services.contains_key(ADDRESS) ==> word_count(decode_utf8(services[ADDRESS])) >= 5
}

fn push_cla_line(out: &mut String, i: usize, name: &String, port: Option<u16>)
    ensures
        final(out)@ == old(out)@ + cla_line(i as nat, name@, port),
{
    push_decimal(out, i as u64);
    string_push_str(out, ". CLA: Name = ");
    string_push_str(out, name.as_str());
    match port {
        Some(p) => {
            string_push_str(out, " Port = ");
            push_decimal(out, p as u64);
        },
        None => {},
    }
    string_push(out, '\n');
    proof {
        reveal_strlit("\n");
        assert(final(out)@ =~= old(out)@ + cla_line(i as nat, name@, port));
    }
}

fn push_service_line(out: &mut String, i: usize, tag: u8, payload: &Vec<u8>, latitude: &str, longitude: &str)
    requires
        tag == CUSTOM_STRING || tag == ADDRESS ==> valid_utf8(payload@),
        tag == BATTERY ==> payload@.len() >= 1,
        tag == ADDRESS ==> word_count(decode_utf8(payload@)) >= 5,
    ensures
        final(out)@ == old(out)@ + service_line(i as nat, tag, payload@, latitude@, longitude@),
{
    proof {
        reveal_strlit("\n");
        reveal_strlit("%\n");
    }
    if tag == CUSTOM_STRING || tag == GEO_LOCATION || tag == BATTERY || tag == ADDRESS {
        push_decimal(out, i as u64);
        string_push_str(out, ". Tag = ");
        push_decimal(out, tag as u64);
    }
    if tag == CUSTOM_STRING {
        let text = string_from_utf8(payload.as_slice()).unwrap();
        string_push_str(out, " Custom String Message: ");
        string_push_str(out, text.as_str());
        string_push(out, '\n');
    } else if tag == GEO_LOCATION {
        string_push_str(out, " Geographic location service. Current location at: Latitude ");
        string_push_str(out, latitude);
        string_push_str(out, " Longitude ");
        string_push_str(out, longitude);
        string_push(out, '\n');
    } else if tag == BATTERY {
        string_push_str(out, " Battery service. Battery level at ");
        push_signed_decimal(out, payload[0] as i8);
        string_push_str(out, "%\n");
    } else if tag == ADDRESS {
        let text = string_from_utf8(payload.as_slice()).unwrap();
        let w = split_words(text.as_str());
        proof {
            lemma_words(text@);
            assert(strings_view(w@).len() == w@.len());
        }
        string_push_str(out, " Address service. Street ");
        string_push_str(out, w[0].as_str());
        string_push_str(out, "; House Number ");
        string_push_str(out, w[1].as_str());
        string_push_str(out, "; Postal Number ");
        string_push_str(out, w[2].as_str());
        string_push_str(out, "; City ");
        string_push_str(out, w[3].as_str());
        string_push_str(out, "; Country Code ");
        string_push_str(out, w[4].as_str());
        string_push(out, '\n');
    }
    proof {
        assert(final(out)@ =~= old(out)@ + service_line(i as nat, tag, payload@, latitude@, longitude@));
    }
}

impl Default for ServiceBlock {
    fn default() -> (r: ServiceBlock)
        ensures
            r@.clas == Seq::<(Seq<char>, Option<u16>)>::empty(),
            r@.services == Map::<u8, Seq<u8>>::empty(),
    {
        ServiceBlock::new()
    }
}

impl ServiceBlock {
    /// A service block without agents or services.
    pub fn new() -> (r: ServiceBlock)
        ensures
            r@.clas == Seq::<(Seq<char>, Option<u16>)>::empty(),
            r@.services == Map::<u8, Seq<u8>>::empty(),
    {
        let r = ServiceBlock { clas: Vec::new(), services: HashMap::new() };
        assert(r@.clas =~= Seq::<(Seq<char>, Option<u16>)>::empty());
        assert(r@.services =~= Map::<u8, Seq<u8>>::empty());
        r
    }

    /// The convergence layer agents, each with its port if it has one.
    pub fn clas(&self) -> (r: &Vec<(String, Option<u16>)>)
        ensures
            clas_view(r@) == self@.clas,
    {
        &self.clas
    }

    /// The services, each payload under its tag.
    pub fn services(&self) -> (r: &HashMap<u8, Vec<u8>>)
        ensures
            services_view(r@) == self@.services,
    {
        &self.services
    }

    /// Adds an agent.
    pub fn add_cla(&mut self, name: &str, port: &Option<u16>)
        ensures
            final(self)@.clas == old(self)@.clas.push((name@, *port)),
            final(self)@.services == old(self)@.services,
    {
        let ghost before = self.clas@;
        self.clas.push((name.to_owned(), *port));
        assert(clas_view(self.clas@) =~= clas_view(before).push((name@, *port)));
    }

    /// Adds a service, replacing one under the same tag.
    pub fn add_custom_service(&mut self, tag: u8, service: &[u8])
        ensures
            final(self)@.services == old(self)@.services.insert(tag, service@),
            final(self)@.clas == old(self)@.clas,
    {
        let ghost before = self.services@;
        let payload = vstd::slice::slice_to_vec(service);
        self.services.insert(tag, payload);
        assert(services_view(self.services@) =~= services_view(before).insert(tag, service@));
    }

    /// Replaces the agents.
    pub fn set_clas(&mut self, clas: Vec<(String, Option<u16>)>)
        ensures
            final(self)@.clas == clas_view(clas@),
            final(self)@.services == old(self)@.services,
    {
        self.clas = clas;
    }

    /// Replaces the services.
    pub fn set_services(&mut self, services: HashMap<u8, Vec<u8>>)
        ensures
            final(self)@.services == services_view(services@),
            final(self)@.clas == old(self)@.clas,
    {
        self.services = services;
    }

    /// Whether the block holds neither agents nor services.
    pub fn is_empty(&self) -> (r: bool)
        ensures
            r == (self@.clas.len() == 0 && self@.services.len() == 0),
    {
        assert(services_view(self.services@).dom() =~= self.services@.dom());
        self.clas.len() == 0 && self.services.len() == 0
    }
    /// Builds the service `tag` from the text `payload`, checking that the
    /// text suits the tag. For a location, `location` is the big-endian
    /// encoding of the two numbers (latitude, then longitude) that the first
    /// two words of `payload` give, which the caller computes.
    pub fn build_custom_service(tag: u8, payload: &str, location: &[u8]) -> (r: Result<
        (u8, Vec<u8>),
        String,
    >)
        requires
            tag == GEO_LOCATION && word_count(payload@) >= 2 ==> location@.len() == 8,
        ensures
            built_view(r) == spec_build_custom_service(tag, payload@, location@),
    {
        if tag == CUSTOM_STRING {
            let bytes = payload.as_bytes();
            if bytes.len() > 64 {
                Err("The provided custom message is to big. Aim for less than 64 characters".to_owned())
            } else {
                Ok((tag, vstd::slice::slice_to_vec(bytes)))
            }
        } else if tag == GEO_LOCATION {
            if count_words_up_to(payload, 2) < 2 {
                Err("Not enough arguments provided to represent geographical location".to_owned())
            } else {
                Ok((tag, vstd::slice::slice_to_vec(location)))
            }
        } else if tag == BATTERY {
            match str_parse_i8(payload) {
                Ok(v) => {
                    if 0 <= v && v <= 100 {
                        let mut bytes: Vec<u8> = Vec::new();
                        bytes.push(v as u8);
                        assert(bytes@ =~= seq![v as u8]);
                        Ok((tag, bytes))
                    } else {
                        Err(
                            "Provided number can not be used to represent battery level. Please provide a number between 0 and 100".to_owned(),
                        )
                    }
                },
                Err(e) => {
                    let mut message = "Could not parse provided argument into an integer. ".to_owned();
                    string_push_str(&mut message, e.as_str());
                    Err(message)
                },
            }
        } else if tag == ADDRESS {
            if count_words_up_to(payload, 6) == 5 {
                Ok((tag, vstd::slice::slice_to_vec(payload.as_bytes())))
            } else {
                Err(
                    "Can not derive address from provided arguments. Argument order is: Street HouseNumber PostalNumber City CountryCode".to_owned(),
                )
            }
        } else {
            Err(
                "This custom tag is not yet defined. Please refrain from using it until added.".to_owned(),
            )
        }
    }

    /// The text that shows the block, as IPND prints it: the agents, then the
    /// services in the order in which the map hands them out, each line
    /// numbered; the last character is dropped. `latitude` and `longitude`
    /// are the caller's texts of a location service's two numbers.
    pub fn display_text(&self, latitude: &str, longitude: &str) -> (r: String)
        requires
            services_displayable(self@.services),
        ensures
            exists|entries: Seq<(u8, Seq<u8>)>|
                lists_services(entries, self@.services) && r@ == block_text(
                    self@.clas,
                    entries,
                    latitude@,
                    longitude@,
                ),
    {
        let ghost clas = self@.clas;
        let ghost services = self@.services;
        let mut out = "ConvergencyLayerAgents:\n".to_owned();
        let mut i: usize = 0;
        while i < self.clas.len()
            invariant
                clas == clas_view(self.clas@),
                0 <= i <= self.clas@.len(),
                out@ == "ConvergencyLayerAgents:\n"@ + cla_lines(clas.take(i as int)),
            decreases self.clas@.len() - i,
        {
            push_cla_line(&mut out, i, &self.clas[i].0, self.clas[i].1);
            proof {
                assert(clas.take(i + 1).drop_last() =~= clas.take(i as int));
                assert(out@ =~= "ConvergencyLayerAgents:\n"@ + cla_lines(clas.take(i + 1)));
            }
            i = i + 1;
        }
        assert(clas.take(i as int) =~= clas);
        string_push_str(&mut out, "Other services:\n");
        let ghost head = out@;
        let n = self.services.len();
        let mut counter: usize = 0;
        let ghost all = vstd::std_specs::hash::spec_hash_map_iter(&self.services).remaining();
        for entry in it: self.services.iter()
            invariant
                it.seq() == all,
                n == it.seq().len(),
                services == services_view(self.services@),
                counter == it.index(),
                it.seq().len() == self.services@.dom().len(),
                it.seq().no_duplicates(),
                forall|k: int|
                    0 <= k < it.seq().len() ==> self.services@.contains_key(*(#[trigger] it.seq()[k]).0)
                        && self.services@[*it.seq()[k].0] == *it.seq()[k].1,
                out@ == head + service_lines(
                    entries_view(it.seq().take(it.index() as int)),
                    latitude@,
                    longitude@,
                ),
                services_displayable(services),
        {
            let (tag, payload) = entry;
            let ghost k = it.index();
            proof {
                assert(it.seq()[k] == entry);
                assert(services.contains_key(*tag) && services[*tag] == payload@);
                assert(entries_view(it.seq().take(k + 1)).drop_last() =~= entries_view(it.seq().take(k)));
            }
            push_service_line(&mut out, counter, *tag, payload, latitude, longitude);
            counter = counter + 1;
        }
        let ghost entries = entries_view(all);
        proof {
            assert(all.take(all.len() as int) =~= all);
            assert(services.dom() =~= self.services@.dom());
            assert forall|k: int| 0 <= k < entries.len() implies services.contains_key(#[trigger] entries[k].0)
                && services[entries[k].0] == entries[k].1 by {
                assert(self.services@.contains_key(*all[k].0));
            }
            assert forall|a: int, b: int| 0 <= a < b < entries.len() implies #[trigger] entries[a].0 != #[trigger] entries[b].0 by {
                if entries[a].0 == entries[b].0 {
                    assert(all[a] == all[b]);
                }
            }
            assert(lists_services(entries, services));
            assert(out@ == "ConvergencyLayerAgents:\n"@ + cla_lines(clas) + "Other services:\n"@ + service_lines(entries, latitude@, longitude@));
        }
        string_pop(&mut out);
        proof {
            reveal_strlit("ConvergencyLayerAgents:\n");
            assert(out@ == block_text(clas, entries, latitude@, longitude@));
        }
        out
    }

    /// The known services with the text that IPND shows for each; services
    /// under other tags are left out. `location` is the text of a location
    /// service, which the caller formats from its two numbers.
    pub fn convert_services(&self, location: &str) -> (r: HashMap<u8, String>)
        requires
            services_showable(self@.services),
        ensures
            texts_view(r@) == spec_convert_services(self@.services, location@),
    {
        let ghost services = self@.services;
        let mut convert: HashMap<u8, String> = HashMap::new();
        match self.services.get(&CUSTOM_STRING) {
            Some(payload) => {
                match string_from_utf8(payload.as_slice()) {
                    Some(text) => {
                        convert.insert(CUSTOM_STRING, text);
                    },
                    None => {},
                }
            },
            None => {},
        }
        match self.services.get(&GEO_LOCATION) {
            Some(_) => {
                convert.insert(GEO_LOCATION, location.to_owned());
            },
            None => {},
        }
        match self.services.get(&BATTERY) {
            Some(payload) => {
                let mut text = String::new();
                push_signed_decimal(&mut text, payload[0] as i8);
                convert.insert(BATTERY, text);
            },
            None => {},
        }
        match self.services.get(&ADDRESS) {
            Some(payload) => {
                match string_from_utf8(payload.as_slice()) {
                    Some(text) => {
                        convert.insert(ADDRESS, text);
                    },
                    None => {},
                }
            },
            None => {},
        }
        assert(texts_view(convert@) =~= spec_convert_services(services, location@));
        convert
    }
}

} // verus!
