//! What a structured read of one file becomes: a record of its tags, each
//! value rendered as text.
use vstd::prelude::*;
use crate::exiftool::ToolError;
use crate::paths::{file_name_of, path_file_name};

verus! {

#[verifier::external_type_specification]
#[verifier::external_body]
pub struct ExJsonValue(serde_json::Value);

#[verifier::external_type_specification]
#[verifier::external_body]
pub struct ExJsonError(serde_json::Error);

/// The shape of one tag value in the tool's structured output, as far as
/// rendering it needs.
#[derive(Debug, Clone, PartialEq, Eq)]
pub enum TagValue {
    /// A string value.
    Text(String),
    /// A number, in the decimal form the decoder writes it in.
    Number(String),
    /// A boolean.
    Flag(bool),
    /// An array: the string held by each element, `None` for one that is not a string.
    List(Vec<Option<String>>),
    /// A null or an object: a shape that has no text form.
    Other,
}

/// The strings among the elements of an array, in order.
pub open spec fn present(items: Seq<Option<String>>) -> Seq<Seq<char>>
    decreases items.len(),
{
    if items.len() == 0 {
        Seq::empty()
    } else {
        let p = present(items.drop_last());
        match items.last() {
            Some(s) => p.push(s@),
            None => p,
        }
    }
}

/// Parts joined with `", "` between each two.
pub open spec fn joined(parts: Seq<Seq<char>>) -> Seq<char>
    decreases parts.len(),
{
    if parts.len() == 0 {
        Seq::empty()
    } else if parts.len() == 1 {
        parts[0]
    } else {
        joined(parts.drop_last()) + ", "@ + parts.last()
    }
}

/// The text of a tag value; `None` for a shape that is dropped.
pub open spec fn rendered(v: TagValue) -> Option<Seq<char>> {
    match v {
        TagValue::Text(s) => Some(s@),
        TagValue::Number(s) => Some(s@),
        TagValue::Flag(b) => Some(if b { "true"@ } else { "false"@ }),
        TagValue::List(items) => Some(joined(present(items@))),
        TagValue::Other => None,
    }
}

/// Renders a tag value as text: strings as they are, numbers in decimal,
/// booleans as `true`/`false`, arrays as their strings joined by `", "`.
pub fn render_tag_value(v: &TagValue) -> (r: Option<String>)
    ensures
        match (r, rendered(*v)) {
            (Some(s), Some(t)) => s@ == t,
            (None, None) => true,
            _ => false,
        },
{
    match v {
        TagValue::Text(s) => Some(s.clone()),
        TagValue::Number(s) => Some(s.clone()),
        TagValue::Flag(b) => Some(if *b { String::from_str("true") } else { String::from_str("false") }),
        TagValue::List(items) => Some(join_present(items)),
        TagValue::Other => None,
    }
}

fn join_present(items: &Vec<Option<String>>) -> (r: String)
    ensures
        r@ == joined(present(items@)),
{
    let mut out = String::new();
    let mut count: usize = 0;
    let mut i: usize = 0;
    while i < items.len()
        invariant
            i <= items@.len(),
            out@ == joined(present(items@.take(i as int))),
            count as nat == present(items@.take(i as int)).len(),
            count <= i,
        decreases items.len() - i,
    {
        let ghost before = present(items@.take(i as int));
        assert(items@.take(i + 1).drop_last() =~= items@.take(i as int));
        match &items[i] {
            Some(s) => {
                if count == 0 {
                    out = s.clone();
                } else {
                    out.append(", ");
                    out.append(s.as_str());
                }
                assert(before.push(s@).drop_last() =~= before);
                count = count + 1;
            },
            None => {},
        }
        i = i + 1;
    }
    assert(items@.take(i as int) =~= items@);
    out
}

/// The tags that a sequence of decoded pairs yields: each rendered value under
/// its key, a later pair replacing an earlier one of the same key, and pairs
/// whose value has no text form left out.
pub open spec fn tag_map(pairs: Seq<(String, TagValue)>) -> Map<Seq<char>, Seq<char>>
    decreases pairs.len(),
{
    if pairs.len() == 0 {
        Map::empty()
    } else {
        let m = tag_map(pairs.drop_last());
        match rendered(pairs.last().1) {
            Some(t) => m.insert(pairs.last().0@, t),
            None => m,
        }
    }
}

/// The map that a sequence of key/value pairs stands for.
pub open spec fn pairs_map(s: Seq<(String, String)>) -> Map<Seq<char>, Seq<char>>
    decreases s.len(),
{
    if s.len() == 0 {
        Map::empty()
    } else {
        pairs_map(s.drop_last()).insert(s.last().0@, s.last().1@)
    }
}

/// No key occurs twice.
pub open spec fn keys_unique(s: Seq<(String, String)>) -> bool {
    forall|i: int, j: int| 0 <= i < j < s.len() ==> s[i].0@ != s[j].0@
}

proof fn lemma_pairs_map_update(s: Seq<(String, String)>, j: int, p: (String, String))
    requires
        keys_unique(s),
        0 <= j < s.len(),
        s[j].0@ == p.0@,
    ensures
        pairs_map(s.update(j, p)) == pairs_map(s).insert(p.0@, p.1@),
    decreases s.len(),
{
    let u = s.update(j, p);
    if j == s.len() - 1 {
        assert(u.drop_last() =~= s.drop_last());
        assert(pairs_map(u) =~= pairs_map(s).insert(p.0@, p.1@));
    } else {
        assert(u.drop_last() =~= s.drop_last().update(j, p));
        lemma_pairs_map_update(s.drop_last(), j, p);
        assert(s.last().0@ != p.0@);
        assert(pairs_map(u) =~= pairs_map(s).insert(p.0@, p.1@));
    }
}

/// Sets `key` to `value`, replacing the value of an equal key if there is one.
fn set_tag(tags: &mut Vec<(String, String)>, key: String, value: String)
    requires
        keys_unique(old(tags)@),
    ensures
        keys_unique(final(tags)@),
        pairs_map(final(tags)@) == pairs_map(old(tags)@).insert(key@, value@),
{
    let mut j: usize = 0;
    while j < tags.len()
        invariant
            j <= tags@.len(),
            tags@ == old(tags)@,
            keys_unique(tags@),
            forall|k: int| 0 <= k < j ==> tags@[k].0@ != key@,
        decreases tags.len() - j,
    {
        if tags[j].0 == key {
            proof {
                lemma_pairs_map_update(tags@, j as int, (key, value));
            }
            let ghost before = tags@;
            tags.set(j, (key, value));
            assert(forall|k: int| 0 <= k < tags@.len() ==> #[trigger] tags@[k].0@ == before[k].0@);
            return;
        }
        j = j + 1;
    }
    let ghost before = tags@;
    tags.push((key, value));
    assert(tags@.drop_last() =~= before);
}

/// The record of one successfully read file.
#[derive(Debug, Clone)]
pub struct MetadataInfo {
    pub file_path: String,
    pub file_name: String,
    pub file_size: u64,
    /// Tag name and value, each name once.
    pub metadata: Vec<(String, String)>,
}

impl MetadataInfo {
    /// Each tag name occurs once.
    pub open spec fn wf(&self) -> bool {
        keys_unique(self.metadata@)
    }

    /// The tags, by name.
    pub open spec fn tags(&self) -> Map<Seq<char>, Seq<char>> {
        pairs_map(self.metadata@)
    }
}

/// Builds the record of `file_path` from its size and its decoded tag pairs.
pub fn metadata_record(file_path: &str, file_size: u64, pairs: &Vec<(String, TagValue)>) -> (r: MetadataInfo)
    ensures
        r.wf(),
        r.file_path@ == file_path@,
        r.file_name@ == file_name_of(file_path@),
        r.file_size == file_size,
        r.tags() == tag_map(pairs@),
{
    let mut tags: Vec<(String, String)> = Vec::new();
    let mut i: usize = 0;
    while i < pairs.len()
        invariant
            i <= pairs@.len(),
            keys_unique(tags@),
            pairs_map(tags@) == tag_map(pairs@.take(i as int)),
        decreases pairs.len() - i,
    {
        assert(pairs@.take(i + 1).drop_last() =~= pairs@.take(i as int));
        match render_tag_value(&pairs[i].1) {
            Some(text) => set_tag(&mut tags, pairs[i].0.clone(), text),
            None => {},
        }
        i = i + 1;
    }
    assert(pairs@.take(i as int) =~= pairs@);
    MetadataInfo {
        file_path: String::from_str(file_path),
        file_name: path_file_name(file_path),
        file_size,
        metadata: tags,
    }
}

/// The keys of a sequence of pairs, in order.
pub open spec fn pair_keys<T>(rec: Seq<(String, T)>) -> Seq<Seq<char>> {
    rec.map_values(|p: (String, T)| p.0@)
}

/// What `serde_json::from_str` makes of a text read as an array of objects:
/// `None` where it does not decode, else the keys of each object in the
/// order the decoded map yields them.
pub uninterp spec fn decoded_keys(text: Seq<char>) -> Option<Seq<Seq<Seq<char>>>>;

/// Relies on `serde_json::from_str`: decodes the tool's output as an array of
/// objects, each object handed on as its key/value pairs; whether it decodes,
/// and the keys, depend on the text alone.
#[verifier::external_body]
fn decode_records(text: &str) -> (r: Result<Vec<Vec<(String, serde_json::Value)>>, serde_json::Error>)
    ensures
        r is Ok <==> decoded_keys(text@) is Some,
        r matches Ok(v) ==> decoded_keys(text@) == Some(
            v@.map_values(|rec: Vec<(String, serde_json::Value)>| pair_keys(rec@)),
        ),
{
    serde_json::from_str::<Vec<serde_json::Map<String, serde_json::Value>>>(text)
        .map(|records| records.into_iter().map(|m| m.into_iter().collect()).collect())
}

/// Relies on the variants of `serde_json::Value` and on `Value::as_str` and
/// `Number`'s `Display`: tells the shapes apart and hands on what each holds.
#[verifier::external_body]
fn tag_value(v: &serde_json::Value) -> (r: TagValue)
{
    match v {
        serde_json::Value::String(s) => TagValue::Text(s.clone()),
        serde_json::Value::Number(n) => TagValue::Number(n.to_string()),
        serde_json::Value::Bool(b) => TagValue::Flag(*b),
        serde_json::Value::Array(a) => TagValue::List(a.iter().map(|x| x.as_str().map(|s| s.to_string())).collect()),
        _ => TagValue::Other,
    }
}

/// Relies on `serde_json::Error`'s `Display`: the decoder's description of
/// what went wrong.
#[verifier::external_body]
fn decode_error_text(e: &serde_json::Error) -> (r: String)
{
    e.to_string()
}

/// The pairs of the first decoded object; none where there is no object.
pub open spec fn first_or_empty(records: Seq<Vec<(String, TagValue)>>) -> Seq<(String, TagValue)> {
    if records.len() > 0 {
        records[0]@
    } else {
        Seq::empty()
    }
}

/// The keys of the first decoded object; none where nothing decoded or the
/// array is empty.
pub open spec fn first_keys(d: Option<Seq<Seq<Seq<char>>>>) -> Set<Seq<char>> {
    match d {
        Some(recs) => if recs.len() > 0 { recs[0].to_set() } else { Set::empty() },
        None => Set::empty(),
    }
}

/// Builds the record of `file_path` from the decoded objects of a read: only
/// the first object is used, and an empty array gives a record without tags.
pub fn record_from_decoded(
    file_path: &str,
    file_size: u64,
    records: &Vec<Vec<(String, TagValue)>>,
) -> (r: MetadataInfo)
    ensures
        r.wf(),
        r.file_path@ == file_path@,
        r.file_name@ == file_name_of(file_path@),
        r.file_size == file_size,
        r.tags() == tag_map(first_or_empty(records@)),
{
    if records.len() > 0 {
        metadata_record(file_path, file_size, &records[0])
    } else {
        let none: Vec<(String, TagValue)> = Vec::new();
        proof {
            assert(none@ =~= first_or_empty(records@));
        }
        metadata_record(file_path, file_size, &none)
    }
}

proof fn lemma_tag_map_keys(pairs: Seq<(String, TagValue)>)
    ensures
        forall|k: Seq<char>| #[trigger] tag_map(pairs).contains_key(k) ==> pair_keys(pairs).contains(k),
    decreases pairs.len(),
{
    if pairs.len() > 0 {
        let d = pairs.drop_last();
        lemma_tag_map_keys(d);
        assert(pair_keys(pairs) =~= pair_keys(d).push(pairs.last().0@));
        assert forall|k: Seq<char>| #[trigger] tag_map(pairs).contains_key(k) implies pair_keys(pairs).contains(k) by {
            if k != pairs.last().0@ {
                assert(tag_map(d).contains_key(k));
                let t = choose|t: int| 0 <= t < pair_keys(d).len() && pair_keys(d)[t] == k;
                assert(pair_keys(pairs)[t] == k);
            } else {
                assert(pair_keys(pairs)[pairs.len() - 1] == k);
            }
        }
    }
}

fn convert_record(rec: &Vec<(String, serde_json::Value)>) -> (r: Vec<(String, TagValue)>)
    ensures
        pair_keys(r@) == pair_keys(rec@),
{
    let mut pairs: Vec<(String, TagValue)> = Vec::new();
    let mut i: usize = 0;
    while i < rec.len()
        invariant
            i <= rec@.len(),
            pairs@.len() == i,
            forall|t: int| 0 <= t < i ==> #[trigger] pairs@[t].0@ == rec@[t].0@,
        decreases rec.len() - i,
    {
        pairs.push((rec[i].0.clone(), tag_value(&rec[i].1)));
        i = i + 1;
    }
    assert(pair_keys(pairs@) =~= pair_keys(rec@));
    pairs
}

/// Turns the answer of a structured read into a record. A failed run gives
/// the tool's diagnostic text; output that does not decode gives `Parse`,
/// and output that does gives a record whose tags come from the first object
/// alone (see `record_from_decoded`), none where the array is empty.
pub fn read_outcome(
    file_path: &str,
    file_size: u64,
    exit_ok: bool,
    output: &str,
    diagnostic: String,
) -> (r: Result<MetadataInfo, ToolError>)
    ensures
        !exit_ok ==> r == Err::<MetadataInfo, ToolError>(ToolError::Execution(diagnostic)),
        exit_ok ==> (r is Ok <==> decoded_keys(output@) is Some),
        exit_ok && decoded_keys(output@) is None ==> r matches Err(ToolError::Parse(_)),
        r matches Ok(info) ==> {
            &&& info.wf()
            &&& info.file_path@ == file_path@
            &&& info.file_name@ == file_name_of(file_path@)
            &&& info.file_size == file_size
            &&& forall|k: Seq<char>| #[trigger] info.tags().contains_key(k)
                ==> first_keys(decoded_keys(output@)).contains(k)
        },
{
    if !exit_ok {
        return Err(ToolError::Execution(diagnostic));
    }
    let records = match decode_records(output) {
        Ok(records) => records,
        Err(e) => return Err(ToolError::Parse(decode_error_text(&e))),
    };
    let mut converted: Vec<Vec<(String, TagValue)>> = Vec::new();
    let mut j: usize = 0;
    while j < records.len()
        invariant
            j <= records@.len(),
            converted@.len() == j,
            forall|t: int| 0 <= t < j ==> #[trigger] pair_keys(converted@[t]@) == pair_keys(records@[t]@),
        decreases records.len() - j,
    {
        converted.push(convert_record(&records[j]));
        j = j + 1;
    }
    let info = record_from_decoded(file_path, file_size, &converted);
    proof {
        lemma_tag_map_keys(first_or_empty(converted@));
        if records@.len() > 0 {
            let ks = records@.map_values(|rec: Vec<(String, serde_json::Value)>| pair_keys(rec@));
            assert(ks[0] == pair_keys(converted@[0]@));
        }
        assert forall|k: Seq<char>| #[trigger] info.tags().contains_key(k)
            implies first_keys(decoded_keys(output@)).contains(k) by {
            assert(pair_keys(first_or_empty(converted@)).contains(k));
        }
    }
    Ok(info)
}

} // verus!
