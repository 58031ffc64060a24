//! The host's input-device enumeration: record types and the strict
//! all-or-nothing parser for the blank-line-separated `T: value` document the
//! platform exposes. Reading that document from the host is the embedding
//! application's job; this module only parses its text.

use vstd::prelude::*;

use crate::color::{hex_digit_value, is_hex_digit};
use crate::strutil::{
    chars_to_string, copy_range, lemma_views_of_push, split_char, split_char_exec, str_to_chars,
    views_of,
};
use crate::PolychromaticError;

verus! {

/// The 16-bit identifier quadruple of one enumerated input device.
#[derive(Debug, Clone, Copy, PartialEq, Eq, Structural)]
pub struct BusInputDeviceId {
    pub bus_type: u16,
    pub vendor: u16,
    pub product: u16,
    pub version: u16,
}

/// A record line whose tag the parser does not interpret, kept verbatim.
#[derive(Debug, Clone)]
pub struct BusInputUnparsedField {
    pub tag: char,
    pub value: String,
}

impl View for BusInputUnparsedField {
    type V = (char, Seq<char>);

    open spec fn view(&self) -> (char, Seq<char>) {
        (self.tag, self.value@)
    }
}

/// One parsed enumeration record: identity, display name, and any
/// unrecognized fields, preserved for forward compatibility.
#[derive(Debug, Clone)]
pub struct BusInputDevice {
    pub id: BusInputDeviceId,
    pub name: String,
    pub unparsed_fields: Vec<BusInputUnparsedField>,
}

/// The mathematical shape of a parsed enumeration record.
pub ghost struct BusInputDeviceView {
    pub id: BusInputDeviceId,
    pub name: Seq<char>,
    pub unparsed_fields: Seq<(char, Seq<char>)>,
}

/// The views of a sequence of unrecognized fields.
pub open spec fn field_views(fs: Seq<BusInputUnparsedField>) -> Seq<(char, Seq<char>)> {
    fs.map_values(|f: BusInputUnparsedField| f@)
}

pub proof fn lemma_field_views_push(fs: Seq<BusInputUnparsedField>, f: BusInputUnparsedField)
    ensures
        field_views(fs.push(f)) == field_views(fs).push(f@),
{
    assert(field_views(fs.push(f)) =~= field_views(fs).push(f@));
}

impl View for BusInputDevice {
    type V = BusInputDeviceView;

    open spec fn view(&self) -> BusInputDeviceView {
        BusInputDeviceView {
            id: self.id,
            name: self.name@,
            unparsed_fields: field_views(self.unparsed_fields@),
        }
    }
}

/// Which structural rule an enumeration document broke. Parsing is strict:
/// the first fault aborts the whole enumeration.
#[derive(Debug, Clone, Copy, PartialEq, Eq, Structural)]
pub enum DeviceParseFault {
    /// A record line is not of the form `T: value`.
    FieldSyntax,
    /// An identity-line token is not of the form `KEY=VALUE`.
    IdTokenSyntax,
    /// An identity-line token value is not a 16-bit hexadecimal number.
    IdNumber,
    /// The identity line has no `Bus` subfield.
    MissingBus,
    /// The identity line has no `Vendor` subfield.
    MissingVendor,
    /// The identity line has no `Product` subfield.
    MissingProduct,
    /// The identity line has no `Version` subfield.
    MissingVersion,
    /// A name line does not start with `Name=`.
    NamePrefix,
    /// A record has no identity (`I`) line.
    MissingIdentity,
    /// A record has no name (`N`) line.
    MissingName,
}

impl DeviceParseFault {
    /// The static description of the fault carried to the caller.
    pub open spec fn spec_description(self) -> Seq<char> {
        match self {
            DeviceParseFault::FieldSyntax => "Failed to parse device field"@,
            DeviceParseFault::IdTokenSyntax => "Device ID field malformed"@,
            DeviceParseFault::IdNumber => "ID field could not parse ID number from subfield"@,
            DeviceParseFault::MissingBus => "ID field could not find bustype subfield"@,
            DeviceParseFault::MissingVendor => "ID field could not find vendor subfield"@,
            DeviceParseFault::MissingProduct => "ID field could not find product subfield"@,
            DeviceParseFault::MissingVersion => "ID field could not find version subfield"@,
            DeviceParseFault::NamePrefix => "Name field invalid prefix"@,
            DeviceParseFault::MissingIdentity => "Device ID field is required"@,
            DeviceParseFault::MissingName => "Device name field is required"@,
        }
    }

    /// The static description of the fault.
    pub fn description(&self) -> (s: &'static str)
        ensures
            s@ == self.spec_description(),
    {
        match self {
            DeviceParseFault::FieldSyntax => "Failed to parse device field",
            DeviceParseFault::IdTokenSyntax => "Device ID field malformed",
            DeviceParseFault::IdNumber => "ID field could not parse ID number from subfield",
            DeviceParseFault::MissingBus => "ID field could not find bustype subfield",
            DeviceParseFault::MissingVendor => "ID field could not find vendor subfield",
            DeviceParseFault::MissingProduct => "ID field could not find product subfield",
            DeviceParseFault::MissingVersion => "ID field could not find version subfield",
            DeviceParseFault::NamePrefix => "Name field invalid prefix",
            DeviceParseFault::MissingIdentity => "Device ID field is required",
            DeviceParseFault::MissingName => "Device name field is required",
        }
    }
}


/// Every character of `s` is a hexadecimal digit.
pub open spec fn all_hex(s: Seq<char>) -> bool {
    forall|i: int| 0 <= i < s.len() ==> is_hex_digit(s[i])
}

/// The numeric value of a hexadecimal digit string.
pub open spec fn hex_seq_value(s: Seq<char>) -> int
    decreases s.len(),
{
    if s.len() == 0 {
        0
    } else {
        hex_seq_value(s.drop_last()) * 16 + hex_digit_value(s.last())
    }
}

/// What parsing an identifier subfield value yields: a 16-bit hexadecimal
/// number, or nothing if the string is empty, has a non-hex character, or
/// exceeds 16 bits.
pub open spec fn spec_parse_hex_u16(s: Seq<char>) -> Option<u16> {
    if s.len() > 0 && all_hex(s) && hex_seq_value(s) < 0x10000 {
        Some(hex_seq_value(s) as u16)
    } else {
        None
    }
}

proof fn lemma_hex_seq_value_nonneg(s: Seq<char>)
    requires
        all_hex(s),
    ensures
        hex_seq_value(s) >= 0,
    decreases s.len(),
{
    if s.len() > 0 {
        assert(all_hex(s.drop_last()));
        lemma_hex_seq_value_nonneg(s.drop_last());
    }
}

/// Extending a hexadecimal digit string cannot shrink its value.
proof fn lemma_hex_seq_value_mono(s: Seq<char>, i: int)
    requires
        all_hex(s),
        0 <= i <= s.len(),
    ensures
        hex_seq_value(s.take(i)) <= hex_seq_value(s),
    decreases s.len() - i,
{
    if i < s.len() {
        lemma_hex_seq_value_mono(s, i + 1);
        assert(s.take(i + 1).drop_last() =~= s.take(i));
        assert(all_hex(s.take(i)));
        lemma_hex_seq_value_nonneg(s.take(i));
        assert(hex_seq_value(s.take(i + 1)) == hex_seq_value(s.take(i)) * 16 + hex_digit_value(
            s.take(i + 1).last(),
        ));
        assert(is_hex_digit(s[i]));
        assert(hex_digit_value(s.take(i + 1).last()) >= 0);
    } else {
        assert(s.take(i) =~= s);
    }
}

/// Parses a whole character vector as a 16-bit hexadecimal number.
fn parse_hex_u16(v: &Vec<char>) -> (r: Option<u16>)
    ensures
        r == spec_parse_hex_u16(v@),
{
    if v.len() == 0 {
        return None;
    }
    let mut acc: u32 = 0;
    let mut i: usize = 0;
    while i < v.len()
        invariant
            i <= v@.len(),
            v@.len() > 0,
            all_hex(v@.take(i as int)),
            acc <= 0xFFFF,
            acc == hex_seq_value(v@.take(i as int)),
        decreases v@.len() - i,
    {
        let d = match crate::color::hex_value_of_char(v[i]) {
            Some(d) => d,
            None => {
                proof {
                    assert(!is_hex_digit(v@[i as int]));
                    assert(!all_hex(v@));
                }
                return None;
            },
        };
        proof {
            assert(v@.take(i + 1).drop_last() =~= v@.take(i as int));
            assert(v@.take(i + 1).last() == v@[i as int]);
            assert(all_hex(v@.take(i + 1)));
        }
        let next: u32 = acc * 16 + (d as u32);
        if next > 0xFFFF {
            proof {
                if all_hex(v@) {
                    lemma_hex_seq_value_mono(v@, i + 1);
                }
            }
            return None;
        }
        acc = next;
        i += 1;
    }
    proof {
        assert(v@.take(v@.len() as int) =~= v@);
    }
    Some(acc as u16)
}

/// Drops one trailing carriage return, as a line ending of the form `\r\n`
/// leaves one on the piece before the newline.
pub open spec fn strip_cr(l: Seq<char>) -> Seq<char> {
    if l.len() > 0 && l.last() == '\r' {
        l.drop_last()
    } else {
        l
    }
}

/// The lines of one record: pieces between newlines, each inner piece with a
/// trailing carriage return dropped, and no empty final line when the record
/// ends with a newline.
pub open spec fn spec_lines(s: Seq<char>) -> Seq<Seq<char>> {
    let ps = split_char(s, '\n');
    let stripped = Seq::new(ps.len(), |i: int| if i < ps.len() - 1 { strip_cr(ps[i]) } else { ps[i] });
    if stripped.len() > 0 && stripped.last().len() == 0 {
        stripped.drop_last()
    } else {
        stripped
    }
}

/// The pieces of `s` from position `from` on, split at each blank line (two
/// consecutive newlines), left to right without overlap; `cur` is where the
/// piece under construction began.
pub open spec fn split_2nl_from(s: Seq<char>, from: int, cur: int) -> Seq<Seq<char>>
    decreases s.len() - from,
{
    if from < 0 || from + 2 > s.len() {
        seq![s.subrange(cur, s.len() as int)]
    } else if s[from] == '\n' && s[from + 1] == '\n' {
        seq![s.subrange(cur, from)] + split_2nl_from(s, from + 2, from + 2)
    } else {
        split_2nl_from(s, from + 1, cur)
    }
}

/// The records of an enumeration document: the non-empty pieces between
/// blank lines.
pub open spec fn split_records(s: Seq<char>) -> Seq<Seq<char>> {
    split_2nl_from(s, 0, 0).filter(|p: Seq<char>| p.len() > 0)
}


/// The views of a sequence of parsed key/value tokens.
pub open spec fn kv_views(kvs: Seq<(Vec<char>, u16)>) -> Seq<(Seq<char>, u16)> {
    kvs.map_values(|kv: (Vec<char>, u16)| (kv.0@, kv.1))
}

/// The views of a sequence of parsed records.
pub open spec fn device_views(ds: Seq<BusInputDevice>) -> Seq<BusInputDeviceView> {
    ds.map_values(|d: BusInputDevice| d@)
}

/// The parse state while folding one record's lines: fields seen so far.
pub ghost struct RecordState {
    pub id: Option<BusInputDeviceId>,
    pub name: Option<Seq<char>>,
    pub unparsed_fields: Seq<(char, Seq<char>)>,
}

impl RecordState {
    /// The state before any line of the record is read.
    pub open spec fn init() -> RecordState {
        RecordState { id: None, name: None, unparsed_fields: Seq::empty() }
    }
}

/// What parsing one record line yields: lines have the shape `T: value` with
/// a one-character tag.
pub open spec fn spec_parse_line(l: Seq<char>) -> Result<(char, Seq<char>), DeviceParseFault> {
    if l.len() >= 3 && l[1] == ':' && l[2] == ' ' {
        Ok((l[0], l.skip(3)))
    } else {
        Err(DeviceParseFault::FieldSyntax)
    }
}

/// What parsing one identity token yields: exactly `KEY=HEXVALUE`.
pub open spec fn spec_parse_id_token(t: Seq<char>) -> Result<(Seq<char>, u16), DeviceParseFault> {
    let parts = split_char(t, '=');
    if parts.len() != 2 {
        Err(DeviceParseFault::IdTokenSyntax)
    } else {
        match spec_parse_hex_u16(parts[1]) {
            Some(v) => Ok((parts[0], v)),
            None => Err(DeviceParseFault::IdNumber),
        }
    }
}

/// What parsing a list of identity tokens yields: every token parsed in
/// order, or the first token's fault.
pub open spec fn spec_parse_id_tokens(ts: Seq<Seq<char>>) -> Result<
    Seq<(Seq<char>, u16)>,
    DeviceParseFault,
>
    decreases ts.len(),
{
    if ts.len() == 0 {
        Ok(Seq::empty())
    } else {
        match spec_parse_id_token(ts[0]) {
            Err(f) => Err(f),
            Ok(kv) => match spec_parse_id_tokens(ts.skip(1)) {
                Err(f) => Err(f),
                Ok(rest) => Ok(seq![kv] + rest),
            },
        }
    }
}

/// The value of the last token carrying the given key; later tokens overwrite
/// earlier ones, as collecting into a map does.
pub open spec fn lookup_key(kvs: Seq<(Seq<char>, u16)>, key: Seq<char>) -> Option<u16>
    decreases kvs.len(),
{
    if kvs.len() == 0 {
        None
    } else if kvs.last().0 == key {
        Some(kvs.last().1)
    } else {
        lookup_key(kvs.drop_last(), key)
    }
}

/// What parsing the value of an identity (`I`) line yields: space-separated
/// `KEY=HEXVALUE` tokens, of which `Bus`, `Vendor`, `Product` and `Version`
/// are required.
pub open spec fn spec_parse_id_value(v: Seq<char>) -> Result<BusInputDeviceId, DeviceParseFault> {
    match spec_parse_id_tokens(split_char(v, ' ')) {
        Err(f) => Err(f),
        Ok(kvs) => {
            if lookup_key(kvs, "Bus"@) is None {
                Err(DeviceParseFault::MissingBus)
            } else if lookup_key(kvs, "Vendor"@) is None {
                Err(DeviceParseFault::MissingVendor)
            } else if lookup_key(kvs, "Product"@) is None {
                Err(DeviceParseFault::MissingProduct)
            } else if lookup_key(kvs, "Version"@) is None {
                Err(DeviceParseFault::MissingVersion)
            } else {
                Ok(BusInputDeviceId {
                    bus_type: lookup_key(kvs, "Bus"@)->0,
                    vendor: lookup_key(kvs, "Vendor"@)->0,
                    product: lookup_key(kvs, "Product"@)->0,
                    version: lookup_key(kvs, "Version"@)->0,
                })
            }
        },
    }
}

/// What parsing the value of a name (`N`) line yields: `Name=` followed by a
/// quoted string (both quotes stripped) or a bare string taken verbatim.
pub open spec fn spec_parse_name_value(v: Seq<char>) -> Result<Seq<char>, DeviceParseFault> {
    if v.len() < 5 || v.subrange(0, 5) != "Name="@ {
        Err(DeviceParseFault::NamePrefix)
    } else {
        let rest = v.skip(5);
        if rest.len() >= 2 && rest[0] == '"' && rest.last() == '"' {
            Ok(rest.subrange(1, rest.len() - 1))
        } else {
            Ok(rest)
        }
    }
}

/// Folds a record's lines over the parse state, left to right, stopping at
/// the first fault. A later `I` or `N` line overwrites an earlier one.
pub open spec fn spec_fold_record_lines(lines: Seq<Seq<char>>, st: RecordState) -> Result<
    RecordState,
    DeviceParseFault,
>
    decreases lines.len(),
{
    if lines.len() == 0 {
        Ok(st)
    } else {
        match spec_parse_line(lines[0]) {
            Err(f) => Err(f),
            Ok(tv) => {
                if tv.0 == 'I' {
                    match spec_parse_id_value(tv.1) {
                        Err(f) => Err(f),
                        Ok(id) => spec_fold_record_lines(
                            lines.skip(1),
                            RecordState { id: Some(id), ..st },
                        ),
                    }
                } else if tv.0 == 'N' {
                    match spec_parse_name_value(tv.1) {
                        Err(f) => Err(f),
                        Ok(nm) => spec_fold_record_lines(
                            lines.skip(1),
                            RecordState { name: Some(nm), ..st },
                        ),
                    }
                } else {
                    spec_fold_record_lines(
                        lines.skip(1),
                        RecordState { unparsed_fields: st.unparsed_fields.push(tv), ..st },
                    )
                }
            },
        }
    }
}

/// What parsing one record yields: its lines folded over the empty state;
/// identity and name are required.
pub open spec fn spec_parse_record(seg: Seq<char>) -> Result<BusInputDeviceView, DeviceParseFault> {
    match spec_fold_record_lines(spec_lines(seg), RecordState::init()) {
        Err(f) => Err(f),
        Ok(st) => {
            if st.id is None {
                Err(DeviceParseFault::MissingIdentity)
            } else if st.name is None {
                Err(DeviceParseFault::MissingName)
            } else {
                Ok(BusInputDeviceView {
                    id: st.id->0,
                    name: st.name->0,
                    unparsed_fields: st.unparsed_fields,
                })
            }
        },
    }
}

/// What parsing a record list yields: every record parsed in order, or the
/// first record's fault; no partial list survives a fault.
pub open spec fn spec_parse_records(segs: Seq<Seq<char>>) -> Result<
    Seq<BusInputDeviceView>,
    DeviceParseFault,
>
    decreases segs.len(),
{
    if segs.len() == 0 {
        Ok(Seq::empty())
    } else {
        match spec_parse_record(segs[0]) {
            Err(f) => Err(f),
            Ok(d) => match spec_parse_records(segs.skip(1)) {
                Err(f) => Err(f),
                Ok(ds) => Ok(seq![d] + ds),
            },
        }
    }
}

/// What parsing a whole enumeration document yields: its blank-line-separated
/// records, all or nothing.
pub open spec fn spec_parse_devices(s: Seq<char>) -> Result<
    Seq<BusInputDeviceView>,
    DeviceParseFault,
> {
    spec_parse_records(split_records(s))
}

/// Splits at each blank line (two consecutive newlines), left to right
/// without overlap, keeping empty pieces.
fn split_2nl_exec(v: &Vec<char>) -> (out: Vec<Vec<char>>)
    ensures
        views_of(out@) == split_2nl_from(v@, 0, 0),
{
    let mut out: Vec<Vec<char>> = Vec::new();
    let mut cur: usize = 0;
    let mut i: usize = 0;
    proof {
        assert(views_of(out@) + split_2nl_from(v@, 0, 0) =~= split_2nl_from(v@, 0, 0));
    }
    while i < v.len() && i + 1 < v.len()
        invariant
            cur <= i,
            i <= v@.len(),
            split_2nl_from(v@, 0, 0) == views_of(out@) + split_2nl_from(v@, i as int, cur as int),
        decreases v@.len() - i,
    {
        if v[i] == '\n' && v[i + 1] == '\n' {
            let ghost old_out = out@;
            let piece = copy_range(v, cur, i);
            out.push(piece);
            proof {
                lemma_views_of_push(old_out, piece);
                assert(views_of(old_out) + (seq![piece@] + split_2nl_from(v@, i + 2, i + 2))
                    =~= views_of(out@) + split_2nl_from(v@, i + 2, i + 2));
            }
            cur = i + 2;
            i += 2;
        } else {
            i += 1;
        }
    }
    let ghost old_out = out@;
    let piece = copy_range(v, cur, v.len());
    out.push(piece);
    proof {
        lemma_views_of_push(old_out, piece);
        assert(views_of(out@) =~= split_2nl_from(v@, 0, 0));
    }
    out
}

/// The records of the document: the non-empty pieces between blank lines.
fn split_records_exec(v: &Vec<char>) -> (out: Vec<Vec<char>>)
    ensures
        views_of(out@) == split_records(v@),
{
    let pieces = split_2nl_exec(v);
    let ghost all = views_of(pieces@);
    let ghost pred = |p: Seq<char>| p.len() > 0;
    let mut out: Vec<Vec<char>> = Vec::new();
    let mut i: usize = 0;
    proof {
        assert(views_of(out@) =~= all.take(0).filter(pred));
    }
    while i < pieces.len()
        invariant
            i <= pieces@.len(),
            all == views_of(pieces@),
            pred == (|p: Seq<char>| p.len() > 0),
            views_of(out@) == all.take(i as int).filter(pred),
        decreases pieces@.len() - i,
    {
        proof {
            reveal(Seq::filter);
            assert(all.take(i + 1).drop_last() =~= all.take(i as int));
            assert(all.take(i + 1).last() == all[i as int]);
        }
        if pieces[i].len() > 0 {
            let ghost old_out = out@;
            let piece = copy_range(&pieces[i], 0, pieces[i].len());
            proof {
                assert(piece@ =~= pieces@[i as int]@);
            }
            out.push(piece);
            proof {
                lemma_views_of_push(old_out, piece);
            }
        }
        i += 1;
    }
    proof {
        assert(all.take(pieces@.len() as int) =~= all);
    }
    out
}

/// Whether two character vectors hold the same characters.
fn chars_eq(a: &Vec<char>, b: &Vec<char>) -> (r: bool)
    ensures
        r == (a@ == b@),
{
    if a.len() != b.len() {
        return false;
    }
    let mut i: usize = 0;
    while i < a.len()
        invariant
            i <= a@.len(),
            a@.len() == b@.len(),
            forall|k: int| 0 <= k < i ==> a@[k] == b@[k],
        decreases a@.len() - i,
    {
        if a[i] != b[i] {
            return false;
        }
        i += 1;
    }
    proof {
        assert(a@ =~= b@);
    }
    true
}

/// The value of the last token carrying the given key.
fn lookup_exec(kvs: &Vec<(Vec<char>, u16)>, key: &Vec<char>) -> (r: Option<u16>)
    ensures
        r == lookup_key(kv_views(kvs@), key@),
{
    let ghost all = kv_views(kvs@);
    let mut j: usize = kvs.len();
    proof {
        assert(all.take(j as int) =~= all);
    }
    while j > 0
        invariant
            j <= kvs@.len(),
            all == kv_views(kvs@),
            lookup_key(all, key@) == lookup_key(all.take(j as int), key@),
        decreases j,
    {
        proof {
            assert(all.take(j as int).last() == all[j - 1]);
            assert(all.take(j as int).drop_last() =~= all.take(j - 1));
        }
        if chars_eq(&kvs[j - 1].0, key) {
            return Some(kvs[j - 1].1);
        }
        j -= 1;
    }
    proof {
        assert(all.take(0) =~= Seq::<(Seq<char>, u16)>::empty());
    }
    None
}

/// Parses the value of an identity line.
fn parse_id_value_exec(v: &Vec<char>) -> (r: Result<BusInputDeviceId, DeviceParseFault>)
    ensures
        r == spec_parse_id_value(v@),
{
    let tokens = split_char_exec(v, ' ');
    let ghost tviews = views_of(tokens@);
    let mut kvs: Vec<(Vec<char>, u16)> = Vec::new();
    let mut i: usize = 0;
    proof {
        assert(kv_views(kvs@) =~= Seq::<(Seq<char>, u16)>::empty());
        assert(tviews.skip(0) =~= tviews);
    }
    while i < tokens.len()
        invariant
            i <= tokens@.len(),
            tviews == views_of(tokens@),
            tviews == split_char(v@, ' '),
            spec_parse_id_tokens(tviews) == (match spec_parse_id_tokens(tviews.skip(i as int)) {
                Err(f) => Err::<Seq<(Seq<char>, u16)>, DeviceParseFault>(f),
                Ok(rest) => Ok(kv_views(kvs@) + rest),
            }),
        decreases tokens@.len() - i,
    {
        proof {
            assert(tviews.skip(i as int)[0] == tviews[i as int]);
            assert(tviews.skip(i as int).skip(1) =~= tviews.skip(i + 1));
            assert(tviews[i as int] == tokens@[i as int]@);
        }
        let parts = split_char_exec(&tokens[i], '=');
        proof {
            assert(views_of(parts@) == split_char(tviews[i as int], '='));
            assert(views_of(parts@).len() == parts@.len());
        }
        if parts.len() != 2 {
            return Err(DeviceParseFault::IdTokenSyntax);
        }
        proof {
            assert(views_of(parts@)[1] == parts@[1]@);
            assert(views_of(parts@)[0] == parts@[0]@);
        }
        match parse_hex_u16(&parts[1]) {
            None => {
                return Err(DeviceParseFault::IdNumber);
            },
            Some(val) => {
                let ghost old_kvs = kvs@;
                let keypart = copy_range(&parts[0], 0, parts[0].len());
                proof {
                    assert(keypart@ =~= views_of(parts@)[0]);
                }
                kvs.push((keypart, val));
                proof {
                    assert(kv_views(kvs@) =~= kv_views(old_kvs).push((keypart@, val)));
                    assert(kv_views(old_kvs) + (seq![(keypart@, val)] + (match spec_parse_id_tokens(
                        tviews.skip(i + 1),
                    ) {
                        Err(f) => Seq::<(Seq<char>, u16)>::empty(),
                        Ok(rest) => rest,
                    })) =~= kv_views(kvs@) + (match spec_parse_id_tokens(tviews.skip(i + 1)) {
                        Err(f) => Seq::<(Seq<char>, u16)>::empty(),
                        Ok(rest) => rest,
                    }));
                }
            },
        }
        i += 1;
    }
    proof {
        assert(tviews.skip(tokens@.len() as int) =~= Seq::<Seq<char>>::empty());
    }
    let bus_key = str_to_chars("Bus");
    let vendor_key = str_to_chars("Vendor");
    let product_key = str_to_chars("Product");
    let version_key = str_to_chars("Version");
    let bus = match lookup_exec(&kvs, &bus_key) {
        Some(x) => x,
        None => {
            return Err(DeviceParseFault::MissingBus);
        },
    };
    let vendor = match lookup_exec(&kvs, &vendor_key) {
        Some(x) => x,
        None => {
            return Err(DeviceParseFault::MissingVendor);
        },
    };
    let product = match lookup_exec(&kvs, &product_key) {
        Some(x) => x,
        None => {
            return Err(DeviceParseFault::MissingProduct);
        },
    };
    let version = match lookup_exec(&kvs, &version_key) {
        Some(x) => x,
        None => {
            return Err(DeviceParseFault::MissingVersion);
        },
    };
    Ok(BusInputDeviceId { bus_type: bus, vendor, product, version })
}

/// Parses the value of a name line.
fn parse_name_value_exec(v: &Vec<char>) -> (r: Result<Vec<char>, DeviceParseFault>)
    ensures
        (r matches Ok(nm) ==> spec_parse_name_value(v@) == Ok::<Seq<char>, DeviceParseFault>(nm@)),
        (r matches Err(f) ==> spec_parse_name_value(v@) == Err::<Seq<char>, DeviceParseFault>(f)),
{
    proof {
        reveal_strlit("Name=");
        assert("Name="@ =~= seq!['N', 'a', 'm', 'e', '=']);
    }
    if v.len() < 5 {
        return Err(DeviceParseFault::NamePrefix);
    }
    if !(v[0] == 'N' && v[1] == 'a' && v[2] == 'm' && v[3] == 'e' && v[4] == '=') {
        proof {
            assert(v@.subrange(0, 5) != "Name="@);
        }
        return Err(DeviceParseFault::NamePrefix);
    }
    proof {
        assert(v@.subrange(0, 5) =~= "Name="@);
    }
    let rest = copy_range(v, 5, v.len());
    proof {
        assert(rest@ =~= v@.skip(5));
    }
    if rest.len() >= 2 && rest[0] == '"' && rest[rest.len() - 1] == '"' {
        let inner = copy_range(&rest, 1, rest.len() - 1);
        Ok(inner)
    } else {
        Ok(rest)
    }
}

/// Parses one record line into its tag and value.
fn parse_line_exec(l: &Vec<char>) -> (r: Result<(char, Vec<char>), DeviceParseFault>)
    ensures
        (r matches Ok(tv) ==> spec_parse_line(l@) == Ok::<(char, Seq<char>), DeviceParseFault>(
            (tv.0, tv.1@),
        )),
        (r matches Err(f) ==> spec_parse_line(l@) == Err::<(char, Seq<char>), DeviceParseFault>(f)),
{
    if l.len() < 3 || !(l[1] == ':' && l[2] == ' ') {
        return Err(DeviceParseFault::FieldSyntax);
    }
    let value = copy_range(l, 3, l.len());
    proof {
        assert(value@ =~= l@.skip(3));
    }
    Ok((l[0], value))
}

/// Parses one blank-line-separated record.
fn parse_record_exec(seg: &Vec<char>) -> (r: Result<BusInputDevice, DeviceParseFault>)
    ensures
        (r matches Ok(d) ==> spec_parse_record(seg@) == Ok::<BusInputDeviceView, DeviceParseFault>(
            d@,
        )),
        (r matches Err(f) ==> spec_parse_record(seg@) == Err::<BusInputDeviceView, DeviceParseFault>(
            f,
        )),
{
    let pieces = split_char_exec(seg, '\n');
    let ghost ps = views_of(pieces@);
    let ghost target = Seq::new(
        ps.len(),
        |k: int| if k < ps.len() - 1 { strip_cr(ps[k]) } else { ps[k] },
    );
    let mut lines: Vec<Vec<char>> = Vec::new();
    let mut i: usize = 0;
    proof {
        assert(views_of(lines@) =~= target.take(0));
    }
    while i < pieces.len()
        invariant
            i <= pieces@.len(),
            ps == views_of(pieces@),
            target == Seq::new(
                ps.len(),
                |k: int| if k < ps.len() - 1 { strip_cr(ps[k]) } else { ps[k] },
            ),
            views_of(lines@) == target.take(i as int),
        decreases pieces@.len() - i,
    {
        let ghost old_lines = lines@;
        let p = &pieces[i];
        if i + 1 < pieces.len() && p.len() > 0 && p[p.len() - 1] == '\r' {
            let stripped = copy_range(p, 0, p.len() - 1);
            proof {
                assert(stripped@ =~= strip_cr(ps[i as int]));
            }
            lines.push(stripped);
        } else {
            let whole = copy_range(p, 0, p.len());
            proof {
                assert(whole@ =~= ps[i as int]);
                if i + 1 < pieces@.len() {
                    assert(strip_cr(ps[i as int]) == ps[i as int]);
                }
            }
            lines.push(whole);
        }
        proof {
            lemma_views_of_push(old_lines, lines@[lines@.len() - 1]);
            assert(views_of(lines@) =~= target.take(i + 1));
        }
        i += 1;
    }
    proof {
        assert(target.take(ps.len() as int) =~= target);
    }
    if lines.len() > 0 && lines[lines.len() - 1].len() == 0 {
        lines.pop();
        proof {
            assert(views_of(lines@) =~= target.drop_last());
            assert(views_of(lines@) =~= spec_lines(seg@));
        }
    } else {
        proof {
            assert(views_of(lines@) =~= spec_lines(seg@));
        }
    }
    let ghost lviews = spec_lines(seg@);
    let mut id: Option<BusInputDeviceId> = None;
    let mut name: Option<Vec<char>> = None;
    let mut unparsed: Vec<BusInputUnparsedField> = Vec::new();
    let mut i: usize = 0;
    proof {
        assert(lviews.skip(0) =~= lviews);
        assert(field_views(unparsed@) =~= Seq::<(char, Seq<char>)>::empty());
    }
    while i < lines.len()
        invariant
            i <= lines@.len(),
            views_of(lines@) == lviews,
            lviews == spec_lines(seg@),
            spec_fold_record_lines(lviews, RecordState::init()) == spec_fold_record_lines(
                lviews.skip(i as int),
                RecordState {
                    id: id,
                    name: (match name {
                        Some(nm) => Some(nm@),
                        None => None,
                    }),
                    unparsed_fields: field_views(unparsed@),
                },
            ),
        decreases lines@.len() - i,
    {
        proof {
            assert(lviews.skip(i as int)[0] == lviews[i as int]);
            assert(lviews.skip(i as int).skip(1) =~= lviews.skip(i + 1));
            assert(views_of(lines@)[i as int] == lines@[i as int]@);
        }
        let (tag, value) = match parse_line_exec(&lines[i]) {
            Ok(tv) => tv,
            Err(f) => {
                return Err(f);
            },
        };
        if tag == 'I' {
            match parse_id_value_exec(&value) {
                Ok(newid) => {
                    id = Some(newid);
                },
                Err(f) => {
                    return Err(f);
                },
            }
        } else if tag == 'N' {
            match parse_name_value_exec(&value) {
                Ok(nm) => {
                    name = Some(nm);
                },
                Err(f) => {
                    return Err(f);
                },
            }
        } else {
            let ghost old_unparsed = unparsed@;
            let field = BusInputUnparsedField { tag, value: chars_to_string(&value) };
            unparsed.push(field);
            proof {
                assert(field@ == (tag, value@));
                lemma_field_views_push(old_unparsed, field);
            }
        }
        i += 1;
    }
    proof {
        assert(lviews.skip(lines@.len() as int) =~= Seq::<Seq<char>>::empty());
    }
    let idv = match id {
        Some(x) => x,
        None => {
            return Err(DeviceParseFault::MissingIdentity);
        },
    };
    let namev = match name {
        Some(x) => x,
        None => {
            return Err(DeviceParseFault::MissingName);
        },
    };
    let dev = BusInputDevice {
        id: idv,
        name: chars_to_string(&namev),
        unparsed_fields: unparsed,
    };
    Ok(dev)
}

/// Parses a whole device-enumeration document into its records. Parsing is
/// all or nothing: the first structural fault aborts the enumeration, and no
/// partial device list is returned.
pub fn parse_input_devices(text: &str) -> (r: Result<Vec<BusInputDevice>, PolychromaticError>)
    ensures
        (r matches Ok(devs) ==> spec_parse_devices(text@) == Ok::<
            Seq<BusInputDeviceView>,
            DeviceParseFault,
        >(device_views(devs@))),
        (r matches Err(e) ==> spec_parse_devices(text@) matches Err(f)
            && e == PolychromaticError::CannotParseDevice(f)),
{
    let chars = str_to_chars(text);
    let segs = split_records_exec(&chars);
    let ghost sviews = views_of(segs@);
    let mut devs: Vec<BusInputDevice> = Vec::new();
    let mut i: usize = 0;
    proof {
        assert(sviews.skip(0) =~= sviews);
        assert(device_views(devs@) =~= Seq::<BusInputDeviceView>::empty());
    }
    while i < segs.len()
        invariant
            i <= segs@.len(),
            sviews == views_of(segs@),
            sviews == split_records(text@),
            spec_parse_records(sviews) == (match spec_parse_records(sviews.skip(i as int)) {
                Err(f) => Err::<Seq<BusInputDeviceView>, DeviceParseFault>(f),
                Ok(rest) => Ok(device_views(devs@) + rest),
            }),
        decreases segs@.len() - i,
    {
        proof {
            assert(sviews.skip(i as int)[0] == sviews[i as int]);
            assert(sviews.skip(i as int).skip(1) =~= sviews.skip(i + 1));
            assert(views_of(segs@)[i as int] == segs@[i as int]@);
        }
        match parse_record_exec(&segs[i]) {
            Err(f) => {
                return Err(PolychromaticError::CannotParseDevice(f));
            },
            Ok(d) => {
                let ghost old_devs = devs@;
                let ghost dv = d@;
                devs.push(d);
                proof {
                    assert(device_views(devs@) =~= device_views(old_devs).push(dv));
                    assert(device_views(old_devs) + (seq![dv] + (match spec_parse_records(
                        sviews.skip(i + 1),
                    ) {
                        Err(f) => Seq::<BusInputDeviceView>::empty(),
                        Ok(rest) => rest,
                    })) =~= device_views(devs@) + (match spec_parse_records(sviews.skip(i + 1)) {
                        Err(f) => Seq::<BusInputDeviceView>::empty(),
                        Ok(rest) => rest,
                    }));
                }
            },
        }
        i += 1;
    }
    proof {
        assert(sviews.skip(segs@.len() as int) =~= Seq::<Seq<char>>::empty());
    }
    Ok(devs)
}

} // verus!
