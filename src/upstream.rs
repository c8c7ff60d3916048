use vstd::prelude::*;
use vstd::string::StringExecFns;

use crate::record::Show;

verus! {

/// Why the upstream service gave no records for an identifier.
#[derive(Debug, PartialEq, Eq)]
pub enum UpstreamError {
    /// The request did not reach the service or its answer was not read.
    Transport(String),
    /// The service answered with a status outside the success range.
    Status(u16),
    /// The body of the answer is not JSON.
    InvalidJson,
    /// The body is JSON but its top-level value is not an object.
    InvalidFormat,
}

/// A member of a JSON object: its key and, when its value is a string, that
/// string.
pub struct Member {
    pub key: String,
    pub text: Option<String>,
}

/// A member of the top-level JSON object: its key and, when its value is an
/// array, each element of it, as its members when the element is an object.
pub struct Entry {
    pub key: String,
    pub items: Option<Vec<Option<Vec<Member>>>>,
}

/// The members of an object, as keys and string values.
pub type FieldsView = Seq<(Seq<char>, Option<Seq<char>>)>;

/// The top-level members of a document.
pub type EntriesView = Seq<(Seq<char>, Option<Seq<Option<FieldsView>>>)>;

/// The text of an optional string.
pub open spec fn opt_text(t: Option<String>) -> Option<Seq<char>> {
    match t {
        Some(s) => Some(s@),
        None => None,
    }
}

/// The members of an object, as keys and string values.
pub open spec fn members_view(ms: Seq<Member>) -> FieldsView {
    ms.map_values(|m: Member| (m.key@, opt_text(m.text)))
}

/// An element of an array: its members when it is an object.
pub open spec fn object_view(o: Option<Vec<Member>>) -> Option<FieldsView> {
    match o {
        Some(ms) => Some(members_view(ms@)),
        None => None,
    }
}

/// The elements of a member's array value, if it has one.
pub open spec fn items_view(items: Option<Vec<Option<Vec<Member>>>>) -> Option<
    Seq<Option<FieldsView>>,
> {
    match items {
        Some(v) => Some(v@.map_values(|o: Option<Vec<Member>>| object_view(o))),
        None => None,
    }
}

/// The top-level members of a document, as keys and array values.
pub open spec fn entries_view(es: Seq<Entry>) -> EntriesView {
    es.map_values(|e: Entry| (e.key@, items_view(e.items)))
}

/// A read document as a mathematical value.
pub open spec fn document_view(d: Option<Option<Vec<Entry>>>) -> Option<Option<EntriesView>> {
    match d {
        Some(Some(es)) => Some(Some(entries_view(es@))),
        Some(None) => Some(None),
        None => None,
    }
}

/// What serde_json reads from a text: `None` when the text is not JSON,
/// `Some(None)` when its top-level value is not an object, else the members
/// of that object.
pub uninterp spec fn parsed_document(text: Seq<char>) -> Option<Option<EntriesView>>;

/// Relies on `serde_json::from_str` into a `serde_json::Value`, read through
/// `Value::as_object`, `Value::as_array` and `Value::as_str`: the result
/// depends on the text alone.
#[verifier::external_body]
fn parse_document(text: &str) -> (r: Option<Option<Vec<Entry>>>)
    ensures
        document_view(r) == parsed_document(text@),
{
    let value: serde_json::Value = serde_json::from_str(text).ok()?;
    let members = |o: &serde_json::Map<String, serde_json::Value>| {
        o.iter().map(|(k, v)| Member { key: k.clone(), text: v.as_str().map(String::from) }).collect()
    };
    Some(value.as_object().map(|o| {
        o.iter().map(|(k, v)| Entry {
            key: k.clone(),
            items: v.as_array().map(|a| a.iter().map(|x| x.as_object().map(members)).collect()),
        }).collect()
    }))
}

/// The string value of the first member named `key`; empty when there is no
/// such member or its value is not a string.
pub open spec fn text_of(fields: FieldsView, key: Seq<char>) -> Seq<char>
    decreases fields.len(),
{
    if fields.len() == 0 {
        Seq::empty()
    } else if fields[0].0 == key {
        match fields[0].1 {
            Some(t) => t,
            None => Seq::empty(),
        }
    } else {
        text_of(fields.subrange(1, fields.len() as int), key)
    }
}

/// The elements of the first member named `key`, if its value is an array.
pub open spec fn items_of(entries: EntriesView, key: Seq<char>) -> Option<Seq<Option<FieldsView>>>
    decreases entries.len(),
{
    if entries.len() == 0 {
        None
    } else if entries[0].0 == key {
        entries[0].1
    } else {
        items_of(entries.subrange(1, entries.len() as int), key)
    }
}

/// Whether `r` is the record that an element of the upstream `data` array
/// stands for: each field is the member of the same name when that is a
/// string, else empty (so every field is empty for an element that is not
/// an object).
pub open spec fn decodes_to(item: Option<FieldsView>, r: Show) -> bool {
    let fields = match item {
        Some(f) => f,
        None => Seq::empty(),
    };
    &&& r.showid@ == text_of(fields, "showid"@)
    &&& r.showdate@ == text_of(fields, "showdate"@)
    &&& r.permalink@ == text_of(fields, "permalink"@)
    &&& r.showyear@ == text_of(fields, "showyear"@)
    &&& r.uniqueid@ == text_of(fields, "uniqueid"@)
    &&& r.meta@ == text_of(fields, "meta"@)
    &&& r.reviews@ == text_of(fields, "reviews"@)
    &&& r.exclude@ == text_of(fields, "exclude"@)
    &&& r.setlistnotes@ == text_of(fields, "setlistnotes"@)
    &&& r.soundcheck@ == text_of(fields, "soundcheck"@)
    &&& r.songid@ == text_of(fields, "songid"@)
    &&& r.position@ == text_of(fields, "position"@)
    &&& r.transition@ == text_of(fields, "transition"@)
    &&& r.footnote@ == text_of(fields, "footnote"@)
    &&& r.set@ == text_of(fields, "set"@)
    &&& r.isjam@ == text_of(fields, "isjam"@)
    &&& r.isreprise@ == text_of(fields, "isreprise"@)
    &&& r.isjamchart@ == text_of(fields, "isjamchart"@)
    &&& r.jamchart_description@ == text_of(fields, "jamchart_description"@)
    &&& r.tracktime@ == text_of(fields, "tracktime"@)
    &&& r.gap@ == text_of(fields, "gap"@)
    &&& r.tourid@ == text_of(fields, "tourid"@)
    &&& r.tourname@ == text_of(fields, "tourname"@)
    &&& r.tourwhen@ == text_of(fields, "tourwhen"@)
    &&& r.song@ == text_of(fields, "song"@)
    &&& r.nickname@ == text_of(fields, "nickname"@)
    &&& r.slug@ == text_of(fields, "slug"@)
    &&& r.is_original@ == text_of(fields, "is_original"@)
    &&& r.venueid@ == text_of(fields, "venueid"@)
    &&& r.venue@ == text_of(fields, "venue"@)
    &&& r.city@ == text_of(fields, "city"@)
    &&& r.state@ == text_of(fields, "state"@)
    &&& r.country@ == text_of(fields, "country"@)
    &&& r.trans_mark@ == text_of(fields, "trans_mark"@)
    &&& r.artistid@ == text_of(fields, "artistid"@)
    &&& r.artist_slug@ == text_of(fields, "artist_slug"@)
    &&& r.artist_name@ == text_of(fields, "artist_name"@)
}

/// The string value of the member named `key`, or empty.
fn field_text(members: &Vec<Member>, key: &str) -> (r: String)
    ensures
        r@ == text_of(members_view(members@), key@),
{
    let k = key.to_owned();
    let mut i: usize = 0;
    assert(members_view(members@).subrange(0, members@.len() as int) =~= members_view(members@));
    while i < members.len()
        invariant
            i <= members@.len(),
            k@ == key@,
            text_of(members_view(members@), key@) == text_of(
                members_view(members@).subrange(i as int, members@.len() as int),
                key@,
            ),
        decreases members@.len() - i,
    {
        let ghost rest = members_view(members@).subrange(i as int, members@.len() as int);
        assert(rest.subrange(1, rest.len() as int) =~= members_view(members@).subrange(
            i as int + 1,
            members@.len() as int,
        ));
        if members[i].key == k {
            return match &members[i].text {
                Some(t) => t.clone(),
                None => String::new(),
            };
        }
        i = i + 1;
    }
    String::new()
}

/// The record an element of the upstream `data` array stands for.
pub fn decode_show(item: &Option<Vec<Member>>) -> (r: Show)
    ensures
        decodes_to(object_view(*item), r),
{
    let none: Vec<Member> = Vec::new();
    let members = match item {
        Some(ms) => ms,
        None => &none,
    };
    assert(members_view(none@) =~= Seq::<(Seq<char>, Option<Seq<char>>)>::empty());
    Show {
        showid: field_text(members, "showid"),
        showdate: field_text(members, "showdate"),
        permalink: field_text(members, "permalink"),
        showyear: field_text(members, "showyear"),
        uniqueid: field_text(members, "uniqueid"),
        meta: field_text(members, "meta"),
        reviews: field_text(members, "reviews"),
        exclude: field_text(members, "exclude"),
        setlistnotes: field_text(members, "setlistnotes"),
        soundcheck: field_text(members, "soundcheck"),
        songid: field_text(members, "songid"),
        position: field_text(members, "position"),
        transition: field_text(members, "transition"),
        footnote: field_text(members, "footnote"),
        set: field_text(members, "set"),
        isjam: field_text(members, "isjam"),
        isreprise: field_text(members, "isreprise"),
        isjamchart: field_text(members, "isjamchart"),
        jamchart_description: field_text(members, "jamchart_description"),
        tracktime: field_text(members, "tracktime"),
        gap: field_text(members, "gap"),
        tourid: field_text(members, "tourid"),
        tourname: field_text(members, "tourname"),
        tourwhen: field_text(members, "tourwhen"),
        song: field_text(members, "song"),
        nickname: field_text(members, "nickname"),
        slug: field_text(members, "slug"),
        is_original: field_text(members, "is_original"),
        venueid: field_text(members, "venueid"),
        venue: field_text(members, "venue"),
        city: field_text(members, "city"),
        state: field_text(members, "state"),
        country: field_text(members, "country"),
        trans_mark: field_text(members, "trans_mark"),
        artistid: field_text(members, "artistid"),
        artist_slug: field_text(members, "artist_slug"),
        artist_name: field_text(members, "artist_name"),
    }
}

/// Whether `r` is the outcome an upstream answer body that reads as `doc`
/// stands for: the records of its `data` array, one per element; none when
/// it has no `data` array (the service's way of saying it knows no such
/// show); or why the body cannot be read.
pub open spec fn answers(doc: Option<Option<EntriesView>>, r: Result<Vec<Show>, UpstreamError>) -> bool {
    match doc {
        None => r == Err::<Vec<Show>, UpstreamError>(UpstreamError::InvalidJson),
        Some(None) => r == Err::<Vec<Show>, UpstreamError>(UpstreamError::InvalidFormat),
        Some(Some(entries)) => match items_of(entries, "data"@) {
            None => r is Ok && r->Ok_0@.len() == 0,
            Some(items) => r is Ok && r->Ok_0@.len() == items.len() && forall|i: int|
                0 <= i < items.len() ==> decodes_to(items[i], #[trigger] r->Ok_0@[i]),
        },
    }
}

/// The index of the first member named `key`.
fn find_entry(entries: &Vec<Entry>, key: &str) -> (r: Option<usize>)
    ensures
        match r {
            Some(i) => i < entries@.len() && items_of(entries_view(entries@), key@) == items_view(
                entries@[i as int].items,
            ),
            None => items_of(entries_view(entries@), key@) == None::<Seq<Option<FieldsView>>>,
        },
{
    let k = key.to_owned();
    let mut i: usize = 0;
    assert(entries_view(entries@).subrange(0, entries@.len() as int) =~= entries_view(entries@));
    while i < entries.len()
        invariant
            i <= entries@.len(),
            k@ == key@,
            items_of(entries_view(entries@), key@) == items_of(
                entries_view(entries@).subrange(i as int, entries@.len() as int),
                key@,
            ),
        decreases entries@.len() - i,
    {
        let ghost rest = entries_view(entries@).subrange(i as int, entries@.len() as int);
        assert(rest.subrange(1, rest.len() as int) =~= entries_view(entries@).subrange(
            i as int + 1,
            entries@.len() as int,
        ));
        if entries[i].key == k {
            return Some(i);
        }
        i = i + 1;
    }
    None
}

/// The records an upstream answer body stands for, once read as a
/// document: `InvalidJson` when it is not JSON, `InvalidFormat` when its
/// top-level value is not an object, no records when it has no `data`
/// array, else one record per element of that array.
pub fn decode_document(doc: Option<Option<Vec<Entry>>>) -> (r: Result<Vec<Show>, UpstreamError>)
    ensures
        answers(document_view(doc), r),
{
    let entries = match doc {
        None => return Err(UpstreamError::InvalidJson),
        Some(None) => return Err(UpstreamError::InvalidFormat),
        Some(Some(es)) => es,
    };
    let at = match find_entry(&entries, "data") {
        None => return Ok(Vec::new()),
        Some(i) => i,
    };
    let items = match &entries[at].items {
        None => return Ok(Vec::new()),
        Some(items) => items,
    };
    let ghost iv = items@.map_values(|o: Option<Vec<Member>>| object_view(o));
    let mut out: Vec<Show> = Vec::new();
    let mut j: usize = 0;
    while j < items.len()
        invariant
            j <= items@.len(),
            out@.len() == j,
            iv == items@.map_values(|o: Option<Vec<Member>>| object_view(o)),
            forall|i: int| 0 <= i < j ==> decodes_to(iv[i], #[trigger] out@[i]),
        decreases items@.len() - j,
    {
        out.push(decode_show(&items[j]));
        j = j + 1;
    }
    Ok(out)
}

/// The records the upstream service's answer to one identifier stands for:
/// `Status` unless the status is in the success range, else those of the
/// body read as JSON.
pub fn decode_answer(status: u16, body: &str) -> (r: Result<Vec<Show>, UpstreamError>)
    ensures
        !(200 <= status <= 299) ==> r == Err::<Vec<Show>, UpstreamError>(UpstreamError::Status(status)),
        200 <= status <= 299 ==> answers(parsed_document(body@), r),
{
    if status < 200 || status > 299 {
        return Err(UpstreamError::Status(status));
    }
    decode_document(parse_document(body))
}

/// The address of the setlist of show `id` at the upstream service, read
/// with the access key `key`.
pub open spec fn api_address(id: Seq<char>, key: Seq<char>) -> Seq<char> {
    "https://api.phish.net/v5/setlists/showid/"@ + id + ".json?apikey="@ + key
}

/// Builds the address to fetch the records of show `id` from.
pub fn api_url(id: &String, key: &String) -> (r: String)
    ensures
        r@ == api_address(id@, key@),
{
    let mut out = "https://api.phish.net/v5/setlists/showid/".to_owned();
    out.append(id.as_str());
    out.append(".json?apikey=");
    out.append(key.as_str());
    assert(out@ =~= api_address(id@, key@));
    out
}

} // verus!
