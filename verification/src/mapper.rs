//! Schema mapping: raw readings to typed field values.
//!
//! A record schema is an ordered list of `FieldSpec`s. `map_record` walks the
//! list in order, resolves each key in the raw mapping and decodes the
//! reading by the field's kind, short-circuiting on the first unresolved or
//! malformed field: either every field resolves or no record is produced.

use vstd::prelude::*;

use crate::model_iobroker::{IoBrokerValue, RawMapping};
use crate::model_lambda::OrdinalEnum;
use crate::model_temperature::{TemperatureData, TemperatureDataView};
use crate::numeric::{
    check_numeric_text, i32_text_val, index_val, is_i32_text, is_index_text, is_numeric_text,
    parse_i32, parse_u64,
};

verus! {

/// Why a mapping failed: the first key that was absent, or the first reading
/// whose text did not decode as its field's kind.
#[derive(Debug, Clone, PartialEq, Eq)]
pub enum ConversionError {
    InvalidData(String),
    KeyNotFound(String),
}

/// The mathematical shape of a `ConversionError`.
pub enum ConversionErrorView {
    InvalidData(Seq<char>),
    KeyNotFound(Seq<char>),
}

impl View for ConversionError {
    type V = ConversionErrorView;

    open spec fn view(&self) -> ConversionErrorView {
        match self {
            ConversionError::InvalidData(k) => ConversionErrorView::InvalidData(k@),
            ConversionError::KeyNotFound(k) => ConversionErrorView::KeyNotFound(k@),
        }
    }
}

/// How one reading decodes: validated numeric text kept verbatim, an exact `i32`,
/// free text, or a zero-based index into a declared table of symbolic names.
#[derive(Debug, Clone)]
pub enum FieldKind {
    Numeric,
    Integer,
    Text,
    Ordinal(Vec<String>),
}

/// The mathematical shape of a `FieldKind`.
pub enum FieldKindView {
    Numeric,
    Integer,
    Text,
    Ordinal(Seq<Seq<char>>),
}

impl View for FieldKind {
    type V = FieldKindView;

    open spec fn view(&self) -> FieldKindView {
        match self {
            FieldKind::Numeric => FieldKindView::Numeric,
            FieldKind::Integer => FieldKindView::Integer,
            FieldKind::Text => FieldKindView::Text,
            FieldKind::Ordinal(t) => FieldKindView::Ordinal(t.deep_view()),
        }
    }
}

/// One output field: which raw key it is derived from and how.
#[derive(Debug, Clone)]
pub struct FieldSpec {
    pub key: String,
    pub kind: FieldKind,
}

/// The mathematical shape of a `FieldSpec`.
pub struct FieldSpecView {
    pub key: Seq<char>,
    pub kind: FieldKindView,
}

impl View for FieldSpec {
    type V = FieldSpecView;

    open spec fn view(&self) -> FieldSpecView {
        FieldSpecView { key: self.key@, kind: self.kind@ }
    }
}

/// One decoded field value.
#[derive(Debug, Clone, PartialEq, Eq)]
pub enum FieldValue {
    Numeric(String),
    Integer(i32),
    Text(String),
    Ordinal(usize),
}

/// The mathematical shape of a `FieldValue`.
pub enum FieldValueView {
    Numeric(Seq<char>),
    Integer(int),
    Text(Seq<char>),
    Ordinal(int),
}

impl View for FieldValue {
    type V = FieldValueView;

    open spec fn view(&self) -> FieldValueView {
        match self {
            FieldValue::Numeric(s) => FieldValueView::Numeric(s@),
            FieldValue::Integer(n) => FieldValueView::Integer(*n as int),
            FieldValue::Text(s) => FieldValueView::Text(s@),
            FieldValue::Ordinal(i) => FieldValueView::Ordinal(*i as int),
        }
    }
}

/// What decoding one field yields on a given raw mapping: the absent key is
/// reported as `KeyNotFound`; a present reading decodes by the field's kind
/// or is rejected as `InvalidData` naming the same key.
pub open spec fn spec_decode(m: Map<Seq<char>, IoBrokerValue>, fs: FieldSpecView) -> Result<
    FieldValueView,
    ConversionErrorView,
> {
    if !m.contains_key(fs.key) {
        Err(ConversionErrorView::KeyNotFound(fs.key))
    } else {
        let v = m[fs.key].val@;
        match fs.kind {
            FieldKindView::Numeric => if is_numeric_text(v) {
                Ok(FieldValueView::Numeric(v))
            } else {
                Err(ConversionErrorView::InvalidData(fs.key))
            },
            FieldKindView::Integer => if is_i32_text(v) {
                Ok(FieldValueView::Integer(i32_text_val(v)))
            } else {
                Err(ConversionErrorView::InvalidData(fs.key))
            },
            FieldKindView::Text => Ok(FieldValueView::Text(v)),
            FieldKindView::Ordinal(table) => if is_index_text(v) && index_val(v) < table.len() {
                Ok(FieldValueView::Ordinal(index_val(v) as int))
            } else {
                Err(ConversionErrorView::InvalidData(fs.key))
            },
        }
    }
}

/// Decodes one field of the schema.
pub fn decode_field(raw: &RawMapping, fs: &FieldSpec) -> (r: Result<FieldValue, ConversionError>)
    ensures
        match r {
            Ok(v) => spec_decode(raw@, fs@) == Result::<FieldValueView, ConversionErrorView>::Ok(
                v@,
            ),
            Err(e) => spec_decode(raw@, fs@) == Result::<
                FieldValueView,
                ConversionErrorView,
            >::Err(e@),
        },
{
    let entry = match raw.get(fs.key.as_str()) {
        Some(entry) => entry,
        None => {
            return Err(ConversionError::KeyNotFound(fs.key.clone()));
        },
    };
    match &fs.kind {
        FieldKind::Numeric => {
            if check_numeric_text(entry.val.as_str()) {
                Ok(FieldValue::Numeric(entry.val.clone()))
            } else {
                Err(ConversionError::InvalidData(fs.key.clone()))
            }
        },
        FieldKind::Integer => {
            match parse_i32(entry.val.as_str()) {
                Some(n) => Ok(FieldValue::Integer(n)),
                None => Err(ConversionError::InvalidData(fs.key.clone())),
            }
        },
        FieldKind::Text => Ok(FieldValue::Text(entry.val.clone())),
        FieldKind::Ordinal(table) => {
            let table_len = table.len();
            match parse_u64(entry.val.as_str()) {
                Some(n) => {
                    if n < table_len as u64 {
                        Ok(FieldValue::Ordinal(n as usize))
                    } else {
                        Err(ConversionError::InvalidData(fs.key.clone()))
                    }
                },
                None => {
                    proof {
                        if is_index_text(entry.val@) {
                            assert(index_val(entry.val@) > u64::MAX);
                            assert(table.deep_view().len() == table_len);
                        }
                    }
                    Err(ConversionError::InvalidData(fs.key.clone()))
                },
            }
        },
    }
}

/// What mapping a whole schema yields: the values of every field in order,
/// or the error of the first field that fails.
pub open spec fn spec_map_record(
    m: Map<Seq<char>, IoBrokerValue>,
    specs: Seq<FieldSpecView>,
) -> Result<Seq<FieldValueView>, ConversionErrorView>
    decreases specs.len(),
{
    if specs.len() == 0 {
        Ok(Seq::empty())
    } else {
        match spec_decode(m, specs[0]) {
            Err(e) => Err(e),
            Ok(v) => match spec_map_record(m, specs.drop_first()) {
                Err(e) => Err(e),
                Ok(rest) => Ok(seq![v] + rest),
            },
        }
    }
}

/// The views of a schema list.
pub open spec fn specs_view(specs: Seq<FieldSpec>) -> Seq<FieldSpecView> {
    specs.map_values(|fs: FieldSpec| fs@)
}

/// The views of a decoded record.
pub open spec fn values_view(vs: Seq<FieldValue>) -> Seq<FieldValueView> {
    vs.map_values(|v: FieldValue| v@)
}

/// A mapping with an intact prefix is decided by the fields that follow it.
proof fn lemma_map_record_split(
    m: Map<Seq<char>, IoBrokerValue>,
    specs: Seq<FieldSpecView>,
    i: int,
)
    requires
        0 <= i <= specs.len(),
        forall|j: int| 0 <= j < i ==> spec_decode(m, #[trigger] specs[j]) is Ok,
    ensures
        spec_map_record(m, specs) == (match spec_map_record(m, specs.skip(i)) {
            Err(e) => Result::<Seq<FieldValueView>, ConversionErrorView>::Err(e),
            Ok(rest) => Ok(Seq::new(i as nat, |j: int| spec_decode(m, specs[j])->Ok_0) + rest),
        }),
    decreases i,
{
    if i == 0 {
        assert(specs.skip(0) =~= specs);
        match spec_map_record(m, specs) {
            Err(_) => {},
            Ok(rest) => {
                assert(Seq::new(0, |j: int| spec_decode(m, specs[j])->Ok_0) + rest =~= rest);
            },
        }
    } else {
        let tail = specs.drop_first();
        assert(forall|j: int| 0 <= j < i - 1 ==> tail[j] == specs[j + 1]);
        lemma_map_record_split(m, tail, i - 1);
        assert(tail.skip(i - 1) =~= specs.skip(i));
        let v0 = spec_decode(m, specs[0])->Ok_0;
        match spec_map_record(m, specs.skip(i)) {
            Err(_) => {},
            Ok(rest) => {
                let pre_tail = Seq::new((i - 1) as nat, |j: int| spec_decode(m, tail[j])->Ok_0);
                let pre = Seq::new(i as nat, |j: int| spec_decode(m, specs[j])->Ok_0);
                assert(seq![v0] + (pre_tail + rest) =~= pre + rest);
            },
        }
    }
}

/// The first failing field decides the whole mapping: with every field
/// before position `k` resolving, a failure at `k` makes the mapping fail
/// with exactly that field's error, whatever stands after it.
pub proof fn lemma_map_record_fail_fast(
    m: Map<Seq<char>, IoBrokerValue>,
    specs: Seq<FieldSpecView>,
    k: int,
)
    requires
        0 <= k < specs.len(),
        forall|j: int| 0 <= j < k ==> spec_decode(m, #[trigger] specs[j]) is Ok,
        spec_decode(m, specs[k]) is Err,
    ensures
        spec_map_record(m, specs) == Result::<Seq<FieldValueView>, ConversionErrorView>::Err(
            spec_decode(m, specs[k])->Err_0,
        ),
{
    lemma_map_record_split(m, specs, k);
    assert(specs.skip(k)[0] == specs[k]);
}

/// A raw mapping that satisfies every field of the schema maps successfully,
/// and each output value is exactly its field's decoded source value.
pub proof fn lemma_map_record_round_trip(
    m: Map<Seq<char>, IoBrokerValue>,
    specs: Seq<FieldSpecView>,
)
    requires
        forall|j: int| 0 <= j < specs.len() ==> spec_decode(m, #[trigger] specs[j]) is Ok,
    ensures
        spec_map_record(m, specs) is Ok,
        spec_map_record(m, specs)->Ok_0.len() == specs.len(),
        forall|j: int|
            0 <= j < specs.len() ==> spec_map_record(m, specs)->Ok_0[j] == spec_decode(
                m,
                #[trigger] specs[j],
            )->Ok_0,
{
    lemma_map_record_split(m, specs, specs.len() as int);
    assert(specs.skip(specs.len() as int) =~= Seq::<FieldSpecView>::empty());
    let pre = Seq::new(specs.len(), |j: int| spec_decode(m, specs[j])->Ok_0);
    assert(pre + Seq::<FieldValueView>::empty() =~= pre);
}

/// Ordinal decoding respects the declared table's bounds: for a present
/// reading and a table of size N, a decimal index below N (digits, with an
/// optional leading plus as the unsigned parses accept) decodes to exactly
/// that position, and any other text — an index of N or more, a fraction,
/// or non-numeric characters — is invalid data naming the field's key.
pub proof fn lemma_ordinal_bounds(
    m: Map<Seq<char>, IoBrokerValue>,
    key: Seq<char>,
    table: Seq<Seq<char>>,
)
    requires
        m.contains_key(key),
    ensures
        ({
            let d = spec_decode(m, FieldSpecView { key, kind: FieldKindView::Ordinal(table) });
            let v = m[key].val@;
            &&& (is_index_text(v) && index_val(v) < table.len()) ==> d == Result::<
                FieldValueView,
                ConversionErrorView,
            >::Ok(FieldValueView::Ordinal(index_val(v) as int))
            &&& !(is_index_text(v) && index_val(v) < table.len()) ==> d == Result::<
                FieldValueView,
                ConversionErrorView,
            >::Err(ConversionErrorView::InvalidData(key))
        }),
{
}

/// With every field before position `k` resolving, a missing key at `k`
/// fails the mapping with `KeyNotFound` of exactly that key.
pub proof fn lemma_map_record_missing_key(
    m: Map<Seq<char>, IoBrokerValue>,
    specs: Seq<FieldSpecView>,
    k: int,
)
    requires
        0 <= k < specs.len(),
        forall|j: int| 0 <= j < k ==> spec_decode(m, #[trigger] specs[j]) is Ok,
        !m.contains_key(specs[k].key),
    ensures
        spec_map_record(m, specs) == Result::<Seq<FieldValueView>, ConversionErrorView>::Err(
            ConversionErrorView::KeyNotFound(specs[k].key),
        ),
{
    lemma_map_record_fail_fast(m, specs, k);
}

/// A mapping that succeeded had every field resolve, and its output lists
/// each field's decoded value in order.
pub proof fn lemma_map_record_ok_inversion(
    m: Map<Seq<char>, IoBrokerValue>,
    specs: Seq<FieldSpecView>,
)
    requires
        spec_map_record(m, specs) is Ok,
    ensures
        spec_map_record(m, specs)->Ok_0.len() == specs.len(),
        forall|j: int| 0 <= j < specs.len() ==> spec_decode(m, #[trigger] specs[j]) is Ok,
        forall|j: int|
            0 <= j < specs.len() ==> spec_map_record(m, specs)->Ok_0[j] == spec_decode(
                m,
                #[trigger] specs[j],
            )->Ok_0,
    decreases specs.len(),
{
    if specs.len() > 0 {
        let tail = specs.drop_first();
        lemma_map_record_ok_inversion(m, tail);
        assert(forall|j: int| 0 <= j < tail.len() ==> tail[j] == specs[j + 1]);
        let v0 = spec_decode(m, specs[0])->Ok_0;
        let rest = spec_map_record(m, tail)->Ok_0;
        assert(spec_map_record(m, specs)->Ok_0 == seq![v0] + rest);
        assert forall|j: int| 0 <= j < specs.len() implies spec_decode(m, #[trigger] specs[j])
            is Ok && spec_map_record(m, specs)->Ok_0[j] == spec_decode(m, specs[j])->Ok_0 by {
            if j > 0 {
                assert(specs[j] == tail[j - 1]);
                assert((seq![v0] + rest)[j] == rest[j - 1]);
            }
        }
    }
}

/// Maps a whole schema over a raw mapping, in declared order, failing fast
/// on the first unresolved or malformed field.
pub fn map_record(raw: &RawMapping, specs: &Vec<FieldSpec>) -> (r: Result<
    Vec<FieldValue>,
    ConversionError,
>)
    ensures
        match r {
            Ok(vs) => spec_map_record(raw@, specs_view(specs@)) == Result::<
                Seq<FieldValueView>,
                ConversionErrorView,
            >::Ok(values_view(vs@)),
            Err(e) => spec_map_record(raw@, specs_view(specs@)) == Result::<
                Seq<FieldValueView>,
                ConversionErrorView,
            >::Err(e@),
        },
{
    let ghost sv = specs_view(specs@);
    let n = specs.len();
    let mut out: Vec<FieldValue> = Vec::new();
    let mut i: usize = 0;
    while i < n
        invariant
            0 <= i <= n,
            n == specs@.len(),
            sv == specs_view(specs@),
            sv.len() == n,
            out@.len() == i,
            forall|j: int| 0 <= j < i ==> spec_decode(raw@, #[trigger] sv[j]) is Ok,
            forall|j: int|
                0 <= j < i ==> values_view(out@)[j] == spec_decode(raw@, #[trigger] sv[j])->Ok_0,
        decreases n - i,
    {
        match decode_field(raw, &specs[i]) {
            Ok(v) => {
                proof {
                    assert(sv[i as int] == specs@[i as int]@);
                }
                out.push(v);
            },
            Err(e) => {
                proof {
                    assert(sv[i as int] == specs@[i as int]@);
                    lemma_map_record_fail_fast(raw@, sv, i as int);
                }
                return Err(e);
            },
        }
        i += 1;
    }
    proof {
        lemma_map_record_round_trip(raw@, sv);
        assert(values_view(out@).len() == n);
        assert(spec_map_record(raw@, sv)->Ok_0.len() == n);
        assert forall|j: int| 0 <= j < n implies values_view(out@)[j] == spec_map_record(
            raw@,
            sv,
        )->Ok_0[j] by {
            assert(spec_decode(raw@, sv[j]) is Ok);
        }
        assert(values_view(out@) =~= spec_map_record(raw@, sv)->Ok_0);
    }
    Ok(out)
}

/// Resolves one numeric field by key: the reading's text, validated
/// against the float parse's accept-set; `KeyNotFound` for an absent key,
/// `InvalidData` for text that is not numeric, each naming the key.
pub fn get_value(broker_value: &RawMapping, key: String) -> (r: Result<String, ConversionError>)
    ensures
        ({
            let d = spec_decode(
                broker_value@,
                FieldSpecView { key: key@, kind: FieldKindView::Numeric },
            );
            match r {
                Ok(s) => d == Result::<FieldValueView, ConversionErrorView>::Ok(
                    FieldValueView::Numeric(s@),
                ),
                Err(e) => d == Result::<FieldValueView, ConversionErrorView>::Err(e@),
            }
        }),
{
    let entry = match broker_value.get(key.as_str()) {
        Some(e) => e,
        None => {
            return Err(ConversionError::KeyNotFound(key));
        },
    };
    if check_numeric_text(entry.val.as_str()) {
        Ok(entry.val.clone())
    } else {
        Err(ConversionError::InvalidData(key))
    }
}

/// Resolves one integer field by key: the reading parsed exactly as an
/// `i32`, with the same error policy as `get_value`.
pub fn get_int_value(broker_value: &RawMapping, key: String) -> (r: Result<i32, ConversionError>)
    ensures
        ({
            let d = spec_decode(
                broker_value@,
                FieldSpecView { key: key@, kind: FieldKindView::Integer },
            );
            match r {
                Ok(n) => d == Result::<FieldValueView, ConversionErrorView>::Ok(
                    FieldValueView::Integer(n as int),
                ),
                Err(e) => d == Result::<FieldValueView, ConversionErrorView>::Err(e@),
            }
        }),
{
    let entry = match broker_value.get(key.as_str()) {
        Some(e) => e,
        None => {
            return Err(ConversionError::KeyNotFound(key));
        },
    };
    match parse_i32(entry.val.as_str()) {
        Some(n) => Ok(n),
        None => Err(ConversionError::InvalidData(key)),
    }
}

/// Resolves one ordinal field by key into its enumerated state: the reading
/// must be a decimal index (digits with an optional leading plus) below the
/// enum's declared table size, and the result is the variant at that
/// position.
pub fn get_enum<T: OrdinalEnum>(broker_value: &RawMapping, key: String) -> (r: Result<
    T,
    ConversionError,
>)
    ensures
        ({
            let d = spec_decode(
                broker_value@,
                FieldSpecView { key: key@, kind: FieldKindView::Ordinal(T::table()) },
            );
            match r {
                Ok(v) => d is Ok && v.ordinal() == d->Ok_0->Ordinal_0 && v.spec_name()
                    == T::table()[v.ordinal()],
                Err(e) => d == Result::<FieldValueView, ConversionErrorView>::Err(e@),
            }
        }),
{
    let entry = match broker_value.get(key.as_str()) {
        Some(e) => e,
        None => {
            return Err(ConversionError::KeyNotFound(key));
        },
    };
    proof {
        T::lemma_table_small();
    }
    match parse_u64(entry.val.as_str()) {
        Some(n) => {
            if n <= (usize::MAX as u64) {
                match T::from_index(n as usize) {
                    Some(v) => Ok(v),
                    None => Err(ConversionError::InvalidData(key)),
                }
            } else {
                Err(ConversionError::InvalidData(key))
            }
        },
        None => Err(ConversionError::InvalidData(key)),
    }
}

/// What the temperature member of a JSON reading renders to, if the reading
/// is JSON and the member is present and non-null; a function of the
/// reading's text alone.
pub uninterp spec fn temperature_text_of(s: Seq<char>) -> Option<Seq<char>>;

/// Relies on serde_json::from_str and serde_json::Value's Display: decodes
/// the reading as JSON and renders its non-null "temperature" member as
/// text. Both are deterministic in the input text.
#[verifier::external_body]
fn temperature_text(s: &str) -> (r: Option<String>)
    ensures
        r is Some <==> temperature_text_of(s@) is Some,
        r matches Some(t) ==> t@ == temperature_text_of(s@)->0,
{
    let parsed: serde_json::Value = match serde_json::from_str(s) {
        Ok(v) => v,
        Err(_) => return None,
    };
    match &parsed["temperature"] {
        serde_json::Value::Null => None,
        t => Some(t.to_string()),
    }
}

/// Index of the first underscore at or after `from`, or the length of the
/// string if there is none.
pub open spec fn first_underscore_at(s: Seq<char>, from: int) -> int
    decreases s.len() - from,
    when from <= s.len()
{
    if from >= s.len() {
        s.len() as int
    } else if s[from] == '_' {
        from
    } else {
        first_underscore_at(s, from + 1)
    }
}

/// The second `_`-separated segment of a key — the device tag of a
/// temperature entry — or `None` when the key has no underscore at all.
pub open spec fn spec_second_segment(k: Seq<char>) -> Option<Seq<char>> {
    let i = first_underscore_at(k, 0);
    if i == k.len() {
        None
    } else {
        Some(k.subrange(i + 1, first_underscore_at(k, i + 1)))
    }
}

/// Finds the first underscore at or after `from`.
fn find_underscore(key: &str, from: usize) -> (r: usize)
    requires
        from <= key@.len(),
    ensures
        from <= r <= key@.len(),
        r == first_underscore_at(key@, from as int),
{
    let n = key.unicode_len();
    let mut i: usize = from;
    while i < n
        invariant
            from <= i <= n,
            n == key@.len(),
            first_underscore_at(key@, from as int) == first_underscore_at(key@, i as int),
        decreases n - i,
    {
        if key.get_char(i) == '_' {
            return i;
        }
        i += 1;
    }
    i
}

/// The second `_`-separated segment of a key, as a string.
fn second_segment(key: &str) -> (r: Option<String>)
    ensures
        r is Some <==> spec_second_segment(key@) is Some,
        r matches Some(d) ==> d@ == spec_second_segment(key@)->0,
{
    let n = key.unicode_len();
    let i = find_underscore(key, 0);
    if i == n {
        return None;
    }
    let j = find_underscore(key, i + 1);
    let seg = key.substring_char(i + 1, j);
    Some(seg.to_owned())
}

/// What one raw entry contributes to the temperature projection: a record
/// exactly when the value is nonempty, its JSON holds a non-null
/// "temperature" member whose text is numeric, and the key has a second
/// `_`-separated segment; otherwise nothing.
pub open spec fn spec_temp_of(key: Seq<char>, rv: Seq<char>) -> Option<TemperatureDataView> {
    if rv.len() == 0 {
        None
    } else {
        match temperature_text_of(rv) {
            None => None,
            Some(t) => if is_numeric_text(t) {
                match spec_second_segment(key) {
                    None => None,
                    Some(d) => Some(TemperatureDataView { device: d, value: t }),
                }
            } else {
                None
            },
        }
    }
}

/// The records contributed by the entries from position `i` on, in order.
pub open spec fn spec_temp_records_from(es: Seq<(String, IoBrokerValue)>, i: int) -> Seq<
    TemperatureDataView,
>
    decreases es.len() - i,
    when 0 <= i <= es.len()
{
    if i >= es.len() {
        Seq::empty()
    } else {
        let rest = spec_temp_records_from(es, i + 1);
        match spec_temp_of(es[i].0@, es[i].1.val@) {
            Some(t) => seq![t] + rest,
            None => rest,
        }
    }
}

/// Every temperature record one snapshot yields, in entry order.
pub open spec fn spec_temp_records(es: Seq<(String, IoBrokerValue)>) -> Seq<TemperatureDataView> {
    spec_temp_records_from(es, 0)
}

/// The views of a record list.
pub open spec fn temps_view(ts: Seq<TemperatureData>) -> Seq<TemperatureDataView> {
    ts.map_values(|t: TemperatureData| t@)
}

/// Projects temperature readings out of a snapshot. Entries that are empty,
/// are not JSON, lack a non-null numeric "temperature" member, or whose key
/// has no second segment are skipped silently; the projection never fails.
pub fn map_to_temperature(response: &RawMapping) -> (r: Vec<TemperatureData>)
    ensures
        temps_view(r@) == spec_temp_records(response.entries()),
{
    let ghost es = response.entries();
    let n = response.len();
    let mut out: Vec<TemperatureData> = Vec::new();
    let mut i: usize = 0;
    while i < n
        invariant
            0 <= i <= n,
            n == es.len(),
            es == response.entries(),
            temps_view(out@) + spec_temp_records_from(es, i as int) =~= spec_temp_records(es),
        decreases n - i,
    {
        let pair = response.entry_at(i);
        let ghost gkey = pair.0@;
        let ghost gval = pair.1.val@;
        let mut to_add: Option<TemperatureData> = None;
        if !pair.1.val.as_str().is_empty() {
            match temperature_text(pair.1.val.as_str()) {
                Some(t) => {
                    if check_numeric_text(t.as_str()) {
                        match second_segment(pair.0.as_str()) {
                            Some(d) => {
                                to_add = Some(TemperatureData { device: d, value: t });
                            },
                            None => {},
                        }
                    }
                },
                None => {},
            }
        }
        proof {
            assert(match to_add {
                Some(x) => spec_temp_of(gkey, gval) == Some(x@),
                None => spec_temp_of(gkey, gval) is None,
            });
        }
        let ghost dv = out@;
        match to_add {
            Some(x) => {
                let ghost xv = x@;
                out.push(x);
                proof {
                    assert(spec_temp_records_from(es, i as int) =~= seq![xv]
                        + spec_temp_records_from(es, i as int + 1));
                    assert(temps_view(out@) =~= temps_view(dv).push(xv));
                    assert(temps_view(dv).push(xv) + spec_temp_records_from(es, i as int + 1)
                        =~= temps_view(dv) + spec_temp_records_from(es, i as int));
                }
            },
            None => {
                proof {
                    assert(spec_temp_records_from(es, i as int) == spec_temp_records_from(
                        es,
                        i as int + 1,
                    ));
                }
            },
        }
        i += 1;
    }
    proof {
        assert(spec_temp_records_from(es, n as int) =~= Seq::<TemperatureDataView>::empty());
        assert(temps_view(out@) + Seq::<TemperatureDataView>::empty() =~= temps_view(out@));
    }
    out
}

} // verus!
