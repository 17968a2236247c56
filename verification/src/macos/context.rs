//! What a verified signature says of its signer: the reading of the leaf
//! certificate's property graph and of the signing information.

use crate::digest::{digest_sha256, sha256_of};
use crate::encoding::{
    decimal, hex_lower, hex_upper, spec_decimal, spec_hex_lower, spec_hex_upper,
};
use crate::value::{spec_find, spec_items, Dictionary, DictionaryView, Value, ValueView};
use crate::{spec_text, Name, NameView};
use vstd::prelude::*;

verus! {

/// The keys of one property of a certificate.
#[derive(Debug, Clone, Copy, PartialEq, Eq)]
pub enum SecProperty {
    Value,
    Label,
    Type,
}

/// The object identifiers under which the certificate's properties, and the
/// attributes of a distinguished name, are filed.
#[derive(Debug, Clone, Copy, PartialEq, Eq)]
pub enum SecOID {
    SubjectName,
    IssuerName,
    Serial,
    Country,
    CommonName,
    OrgUnit,
    Org,
}

impl SecProperty {
    /// The key as the Security framework spells it.
    pub open spec fn spec_key(self) -> Seq<char> {
        match self {
            SecProperty::Value => "value"@,
            SecProperty::Label => "label"@,
            SecProperty::Type => "type"@,
        }
    }

    /// The key as a text of the property graph.
    pub fn to_cfstr(self) -> (key: &'static str)
        ensures
            key@ == self.spec_key(),
    {
        match self {
            SecProperty::Value => "value",
            SecProperty::Label => "label",
            SecProperty::Type => "type",
        }
    }
}

impl SecOID {
    /// The identifier in dotted notation.
    pub open spec fn spec_key(self) -> Seq<char> {
        match self {
            SecOID::SubjectName => "2.16.840.1.113741.2.1.1.1.8"@,
            SecOID::IssuerName => "2.16.840.1.113741.2.1.1.1.5"@,
            SecOID::Serial => "2.16.840.1.113741.2.1.1.1.3"@,
            SecOID::CommonName => "2.5.4.3"@,
            SecOID::Country => "2.5.4.6"@,
            SecOID::Org => "2.5.4.10"@,
            SecOID::OrgUnit => "2.5.4.11"@,
        }
    }

    /// The identifier as a text of the property graph.
    pub fn to_cfstr(self) -> (key: &'static str)
        ensures
            key@ == self.spec_key(),
    {
        match self {
            SecOID::SubjectName => "2.16.840.1.113741.2.1.1.1.8",
            SecOID::IssuerName => "2.16.840.1.113741.2.1.1.1.5",
            SecOID::Serial => "2.16.840.1.113741.2.1.1.1.3",
            SecOID::CommonName => "2.5.4.3",
            SecOID::Country => "2.5.4.6",
            SecOID::Org => "2.5.4.10",
            SecOID::OrgUnit => "2.5.4.11",
        }
    }
}

/// A certificate as the provider describes it: its DER encoding, and the
/// dictionary of its properties, keyed by object identifier.
#[derive(Debug, PartialEq, Eq)]
pub struct Certificate {
    pub der: Vec<u8>,
    pub values: Dictionary,
}

/// The leaf certificate of a verified signature, with the signing
/// information that came with it.
pub struct Context {
    cert: Vec<u8>,
    dict: Dictionary,
    all: Dictionary,
}

/// The model of a `Context`.
pub ghost struct ContextView {
    /// The DER encoding of the leaf certificate.
    pub cert: Seq<u8>,
    /// The properties of the leaf certificate.
    pub dict: DictionaryView,
    /// The signing information.
    pub all: DictionaryView,
}

impl View for Context {
    type V = ContextView;

    closed spec fn view(&self) -> ContextView {
        ContextView { cert: self.cert@, dict: self.dict@, all: self.all@ }
    }
}

/// The text filed under `key`, where there is one.
pub open spec fn spec_text_at(dictionary: DictionaryView, key: Seq<char>) -> Option<Seq<char>> {
    match spec_find(dictionary, key) {
        Some(ValueView::Text(text)) => Some(text),
        _ => None,
    }
}

/// The value of the property filed under `key`, where that property is of
/// the kind `wanted_kind`.
pub open spec fn spec_get(dict: DictionaryView, key: Seq<char>, wanted_kind: Seq<char>) -> Option<
    ValueView,
> {
    match spec_find(dict, key) {
        Some(ValueView::Dictionary(property)) => {
            if spec_find(property, SecProperty::Type.spec_key()) == Some(
                ValueView::Text(wanted_kind),
            ) {
                spec_find(property, SecProperty::Value.spec_key())
            } else {
                None
            }
        },
        _ => None,
    }
}

/// The entries of the section filed under `key`.
pub open spec fn spec_section(dict: DictionaryView, key: Seq<char>) -> Option<Seq<ValueView>> {
    match spec_get(dict, key, "section"@) {
        Some(ValueView::Array(items)) => Some(items),
        _ => None,
    }
}

/// The text of the string property filed under `key`.
pub open spec fn spec_string(dict: DictionaryView, key: Seq<char>) -> Option<Seq<char>> {
    match spec_get(dict, key, "string"@) {
        Some(ValueView::Text(text)) => Some(text),
        _ => None,
    }
}

/// The value of the first entry of a section that is labelled `label`.
///
/// Entries are read in order. One with another label is passed over. One
/// without a label (or that is no dictionary at all) ends the scan with
/// nothing found.
pub open spec fn spec_sub_value(values: Seq<ValueView>, label: Seq<char>) -> Option<ValueView>
    decreases values.len(),
{
    if values.len() == 0 {
        None
    } else {
        match values[0] {
            ValueView::Dictionary(entry) => match spec_find(entry, SecProperty::Label.spec_key()) {
                Some(found) => {
                    if found == ValueView::Text(label) {
                        spec_find(entry, SecProperty::Value.spec_key())
                    } else {
                        spec_sub_value(values.skip(1), label)
                    }
                },
                None => None,
            },
            _ => None,
        }
    }
}

/// The text of the first entry of a section that is labelled `label`.
pub open spec fn spec_sub_string(values: Seq<ValueView>, label: Seq<char>) -> Option<Seq<char>> {
    match spec_sub_value(values, label) {
        Some(ValueView::Text(text)) => Some(text),
        _ => None,
    }
}

/// The name that a section spells: each attribute looked up by its own
/// label, whatever becomes of the others.
pub open spec fn spec_section_name(values: Seq<ValueView>) -> NameView {
    NameView {
        common_name: spec_sub_string(values, SecOID::CommonName.spec_key()),
        organization: spec_sub_string(values, SecOID::Org.spec_key()),
        organization_unit: spec_sub_string(values, SecOID::OrgUnit.spec_key()),
        country: spec_sub_string(values, SecOID::Country.spec_key()),
    }
}

/// The name filed under `field`: that of its section, and one without any
/// attribute where there is no such section.
pub open spec fn spec_name(dict: DictionaryView, field: Seq<char>) -> NameView {
    match spec_section(dict, field) {
        Some(values) => spec_section_name(values),
        None => NameView {
            common_name: None,
            organization: None,
            organization_unit: None,
            country: None,
        },
    }
}

/// The thumbprint of the certificate with the DER encoding `cert`: its
/// SHA-256 digest in lower-case hexadecimal.
pub open spec fn spec_thumbprint(cert: Seq<u8>) -> Seq<char> {
    spec_hex_lower(sha256_of(cert))
}

/// The team identifier in the signing information `all`.
pub open spec fn spec_team_id(all: DictionaryView) -> Option<Seq<char>> {
    spec_text_at(all, "teamid"@)
}

/// The code-directory hash in the signing information `all`, in upper-case
/// hexadecimal.
pub open spec fn spec_cd_hash(all: DictionaryView) -> Option<Seq<char>> {
    match spec_find(all, "unique"@) {
        Some(ValueView::Data(bytes)) => Some(spec_hex_upper(bytes)),
        _ => None,
    }
}

/// The platform identifier in the signing information `all`, in decimal.
pub open spec fn spec_platform_id(all: DictionaryView) -> Option<Seq<char>> {
    match spec_find(all, "platform-identifier"@) {
        Some(ValueView::Number(number)) => Some(spec_decimal(number)),
        _ => None,
    }
}

/// The information property list embedded in the signed code.
pub open spec fn spec_info_plist(all: DictionaryView) -> Option<DictionaryView> {
    match spec_find(all, "info-plist"@) {
        Some(ValueView::Dictionary(plist)) => Some(plist),
        _ => None,
    }
}

/// The characters of each key and value in `pairs`.
pub open spec fn spec_pairs(pairs: Seq<(String, String)>) -> Seq<(Seq<char>, Seq<char>)> {
    Seq::new(pairs.len(), |i: int| (pairs[i].0@, pairs[i].1@))
}

/// The characters of the keys and values of an optional list of pairs.
pub open spec fn spec_optional_pairs(pairs: Option<Vec<(String, String)>>) -> Option<
    Seq<(Seq<char>, Seq<char>)>,
> {
    match pairs {
        Some(pairs) => Some(spec_pairs(pairs@)),
        None => None,
    }
}

/// The entry that a property makes: one pair where it is there, none where
/// it is not.
pub open spec fn spec_entry(key: Seq<char>, value: Option<Seq<char>>) -> Seq<
    (Seq<char>, Seq<char>),
> {
    match value {
        Some(value) => seq![(key, value)],
        None => seq![],
    }
}

/// The entries that the information property list makes.
pub open spec fn spec_bundle_entries(all: DictionaryView) -> Seq<(Seq<char>, Seq<char>)> {
    match spec_info_plist(all) {
        Some(plist) => spec_entry("bundle_id"@, spec_text_at(plist, "CFBundleIdentifier"@))
            + spec_entry("short_version"@, spec_text_at(plist, "CFBundleShortVersionString"@))
            + spec_entry("bundle_version"@, spec_text_at(plist, "CFBundleVersion"@)),
        None => seq![],
    }
}

/// The additional properties that the signing information `all` makes:
/// nothing at all without a code-directory hash; with one, the entries
/// that are there, in a fixed order, the hash last.
pub open spec fn spec_additional_properties(all: DictionaryView) -> Option<
    Seq<(Seq<char>, Seq<char>)>,
> {
    match spec_cd_hash(all) {
        Some(cd_hash) => Some(
            spec_bundle_entries(all) + spec_entry("team_id"@, spec_team_id(all)) + spec_entry(
                "platform_id"@,
                spec_platform_id(all),
            ) + seq![("cd_hash"@, cd_hash)],
        ),
        None => None,
    }
}

/// Adds the entry for `key` to `pairs`, where `value` is there.
fn push_entry(pairs: &mut Vec<(String, String)>, key: &str, value: Option<String>)
    ensures
        spec_pairs(final(pairs)@) == spec_pairs(old(pairs)@) + spec_entry(
            key@,
            spec_text(value),
        ),
{
    if let Some(value) = value {
        pairs.push((key.to_owned(), value));
    }
    assert(spec_pairs(pairs@) =~= spec_pairs(old(pairs)@) + spec_entry(
        key@,
        spec_text(value),
    ));
}

impl Context {
    /// Wraps a leaf certificate and the signing information of the code
    /// that it signed.
    pub fn new(cert: Certificate, all: Dictionary) -> (context: Self)
        ensures
            context@ == (ContextView { cert: cert.der@, dict: cert.values@, all: all@ }),
    {
        Context { cert: cert.der, dict: cert.values, all }
    }

    /// The value of the certificate property filed under `key`, where the
    /// property says that it is of the kind `wanted_kind`.
    pub fn get(&self, key: SecOID, wanted_kind: &str) -> (value: Option<&Value>)
        ensures
            match value {
                Some(value) => spec_get(self@.dict, key.spec_key(), wanted_kind@) == Some(value@),
                None => spec_get(self@.dict, key.spec_key(), wanted_kind@) is None,
            },
    {
        let property = match self.dict.find(key.to_cfstr()) {
            Some(Value::Dictionary(property)) => property,
            _ => { return None; },
        };
        let kind = match property.find(SecProperty::Type.to_cfstr()) {
            Some(Value::Text(kind)) => kind,
            _ => { return None; },
        };
        if *kind != wanted_kind.to_owned() {
            return None;
        }
        property.find(SecProperty::Value.to_cfstr())
    }

    /// The entries of the section filed under `key`.
    pub fn get_as_section(&self, key: SecOID) -> (values: Option<&Vec<Value>>)
        ensures
            match values {
                Some(values) => spec_section(self@.dict, key.spec_key()) == Some(
                    spec_items(values@),
                ),
                None => spec_section(self@.dict, key.spec_key()) is None,
            },
    {
        match self.get(key, "section") {
            Some(value) => value.as_array(),
            None => None,
        }
    }

    /// The text of the string property filed under `key`.
    pub fn get_as_string(&self, key: SecOID) -> (text: Option<&String>)
        ensures
            match text {
                Some(text) => spec_string(self@.dict, key.spec_key()) == Some(text@),
                None => spec_string(self@.dict, key.spec_key()) is None,
            },
    {
        match self.get(key, "string") {
            Some(value) => value.as_text(),
            None => None,
        }
    }

    /// The value of the first entry of `values` that is labelled
    /// `concrete_label`. Entries with other labels are passed over; an entry
    /// without any label ends the search with nothing found.
    pub fn get_sub_value(values: &Vec<Value>, concrete_label: SecOID) -> (value: Option<&Value>)
        ensures
            match value {
                Some(value) => spec_sub_value(spec_items(values@), concrete_label.spec_key())
                    == Some(value@),
                None => spec_sub_value(spec_items(values@), concrete_label.spec_key()) is None,
            },
    {
        let search_label = concrete_label.to_cfstr().to_owned();
        let ghost items = spec_items(values@);
        let mut i: usize = 0;
        assert(items.skip(0) == items);
        while i < values.len()
            invariant
                i <= values.len(),
                items == spec_items(values@),
                search_label@ == concrete_label.spec_key(),
                spec_sub_value(items, search_label@) == spec_sub_value(
                    items.skip(i as int),
                    search_label@,
                ),
            decreases values.len() - i,
        {
            assert(items.skip(i as int)[0] == values@[i as int]@);
            assert(items.skip(i as int).skip(1) == items.skip(i + 1));
            let subdict = match &values[i] {
                Value::Dictionary(subdict) => subdict,
                _ => { return None; },
            };
            let label = match subdict.find(SecProperty::Label.to_cfstr()) {
                Some(label) => label,
                None => { return None; },
            };
            let found = match label {
                Value::Text(text) => *text == search_label,
                _ => false,
            };
            if found {
                return subdict.find(SecProperty::Value.to_cfstr());
            }
            i += 1;
        }
        None
    }

    /// The text of the first entry of `values` that is labelled
    /// `concrete_label`.
    pub fn get_string(values: &Vec<Value>, concrete_label: SecOID) -> (text: Option<String>)
        ensures
            spec_text(text) == spec_sub_string(
                spec_items(values@),
                concrete_label.spec_key(),
            ),
    {
        match Self::get_sub_value(values, concrete_label) {
            Some(Value::Text(text)) => Some(text.clone()),
            _ => None,
        }
    }

    /// The name filed under `field`.
    pub fn name_for_field(&self, field: SecOID) -> (name: Name)
        ensures
            name@ == spec_name(self@.dict, field.spec_key()),
    {
        match self.get_as_section(field) {
            Some(vals) => Name {
                common_name: Self::get_string(vals, SecOID::CommonName),
                country: Self::get_string(vals, SecOID::Country),
                organization: Self::get_string(vals, SecOID::Org),
                organization_unit: Self::get_string(vals, SecOID::OrgUnit),
            },
            None => Name {
                common_name: None,
                country: None,
                organization: None,
                organization_unit: None,
            },
        }
    }
    /// The serial number of the certificate.
    pub fn serial(&self) -> (serial: Option<String>)
        ensures
            spec_text(serial) == spec_string(self@.dict, SecOID::Serial.spec_key()),
    {
        match self.get_as_string(SecOID::Serial) {
            Some(text) => Some(text.clone()),
            None => None,
        }
    }

    /// The name of the certificate's subject.
    pub fn subject_name(&self) -> (name: Name)
        ensures
            name@ == spec_name(self@.dict, SecOID::SubjectName.spec_key()),
    {
        self.name_for_field(SecOID::SubjectName)
    }

    /// The name of the certificate's issuer.
    pub fn issuer_name(&self) -> (name: Name)
        ensures
            name@ == spec_name(self@.dict, SecOID::IssuerName.spec_key()),
    {
        self.name_for_field(SecOID::IssuerName)
    }

    /// The SHA-256 digest of the certificate's DER encoding, in lower-case
    /// hexadecimal: 64 digits, nothing between them.
    pub fn sha256_thumbprint(&self) -> (thumbprint: String)
        ensures
            thumbprint@ == spec_thumbprint(self@.cert),
            thumbprint@.len() == 64,
    {
        let hash = digest_sha256(self.cert.as_slice());
        hex_lower(hash.as_slice())
    }

    /// The team identifier of the signer.
    pub fn team_id(&self) -> (team_id: Option<String>)
        ensures
            spec_text(team_id) == spec_team_id(self@.all),
    {
        match self.all.find("teamid") {
            Some(Value::Text(team_id)) => Some(team_id.clone()),
            _ => None,
        }
    }

    /// The code-directory hash of the signed code.
    pub fn cd_hash(&self) -> (cd_hash: Option<String>)
        ensures
            spec_text(cd_hash) == spec_cd_hash(self@.all),
    {
        match self.all.find("unique") {
            Some(Value::Data(bytes)) => Some(hex_upper(bytes.as_slice())),
            _ => None,
        }
    }

    /// The platform identifier of the signed code.
    pub fn platform_id(&self) -> (platform_id: Option<String>)
        ensures
            spec_text(platform_id) == spec_platform_id(self@.all),
    {
        match self.all.find("platform-identifier") {
            Some(Value::Number(number)) => Some(decimal(*number)),
            _ => None,
        }
    }

    /// The information property list embedded in the signed code.
    pub fn info_plist(&self) -> (plist: Option<&Dictionary>)
        ensures
            match plist {
                Some(plist) => spec_info_plist(self@.all) == Some(plist@),
                None => spec_info_plist(self@.all) is None,
            },
    {
        match self.all.find("info-plist") {
            Some(Value::Dictionary(plist)) => Some(plist),
            _ => None,
        }
    }

    /// The text filed under `key` in `dict`.
    pub fn key(&self, dict: &Dictionary, key: &str) -> (text: Option<String>)
        ensures
            spec_text(text) == spec_text_at(dict@, key@),
    {
        match dict.find(key) {
            Some(Value::Text(text)) => Some(text.clone()),
            _ => None,
        }
    }

    /// The properties of the signed code, each a name and a text.
    ///
    /// Nothing is returned where the signing information holds no
    /// code-directory hash. Otherwise the list holds, in this order and each
    /// only where the signing information has it: `bundle_id`,
    /// `short_version`, `bundle_version`, `team_id`, `platform_id`, and
    /// always `cd_hash`. No name occurs twice. Which names occur goes by the
    /// signed code, and other backends may know other names: count on
    /// `cd_hash` alone.
    pub fn additional_properties(&self) -> (properties: Option<Vec<(String, String)>>)
        ensures
            spec_optional_pairs(properties) == spec_additional_properties(self@.all),
    {
        let cd_hash = match self.cd_hash() {
            Some(cd_hash) => cd_hash,
            None => { return None; },
        };
        let info_plist = self.info_plist();
        let team_id = self.team_id();
        let platform_id = self.platform_id();
        let mut ret: Vec<(String, String)> = Vec::new();
        assert(spec_pairs(ret@) =~= seq![]);
        if let Some(info_plist) = info_plist {
            let bundle_id = self.key(info_plist, "CFBundleIdentifier");
            let short_version = self.key(info_plist, "CFBundleShortVersionString");
            let bundle_version = self.key(info_plist, "CFBundleVersion");
            push_entry(&mut ret, "bundle_id", bundle_id);
            push_entry(&mut ret, "short_version", short_version);
            push_entry(&mut ret, "bundle_version", bundle_version);
        }
        assert(spec_pairs(ret@) =~= spec_bundle_entries(self@.all));
        push_entry(&mut ret, "team_id", team_id);
        push_entry(&mut ret, "platform_id", platform_id);
        push_entry(&mut ret, "cd_hash", Some(cd_hash));
        Some(ret)
    }
}

/// The thumbprint goes by the certificate's bytes alone: contexts over the
/// same DER encoding have the same thumbprint, whatever else they hold.
pub proof fn lemma_thumbprint_by_encoding(a: Context, b: Context)
    requires
        a@.cert == b@.cert,
    ensures
        spec_thumbprint(a@.cert) == spec_thumbprint(b@.cert),
        spec_thumbprint(a@.cert).len() == 2 * sha256_of(a@.cert).len(),
{
}

/// An entry of a section stands in the way of no label but its own: put
/// another entry with the same label in its place, with whatever value or
/// none, and the lookup under any other label finds what it found before.
pub proof fn lemma_sub_value_other_label(
    values: Seq<ValueView>,
    at: int,
    replaced: DictionaryView,
    label: ValueView,
    other: Seq<char>,
)
    requires
        0 <= at < values.len(),
        values[at] is Dictionary,
        spec_find(values[at]->Dictionary_0, SecProperty::Label.spec_key()) == Some(label),
        spec_find(replaced, SecProperty::Label.spec_key()) == Some(label),
        label != ValueView::Text(other),
    ensures
        spec_sub_value(values.update(at, ValueView::Dictionary(replaced)), other)
            == spec_sub_value(values, other),
    decreases values.len(),
{
    let changed = values.update(at, ValueView::Dictionary(replaced));
    if at == 0 {
        assert(changed.skip(1) == values.skip(1));
    } else {
        assert(changed[0] == values[0]);
        assert(changed.skip(1) == values.skip(1).update(at - 1, ValueView::Dictionary(replaced)));
        lemma_sub_value_other_label(values.skip(1), at - 1, replaced, label, other);
    }
}

/// The attributes of a name are read one by one: where the entry for one of
/// them is replaced (its value made unreadable, say), the three others come
/// out as before.
pub proof fn lemma_name_fields_independent(
    values: Seq<ValueView>,
    at: int,
    replaced: DictionaryView,
    label: ValueView,
)
    requires
        0 <= at < values.len(),
        values[at] is Dictionary,
        spec_find(values[at]->Dictionary_0, SecProperty::Label.spec_key()) == Some(label),
        spec_find(replaced, SecProperty::Label.spec_key()) == Some(label),
    ensures
        ({
            let before = spec_section_name(values);
            let after = spec_section_name(values.update(at, ValueView::Dictionary(replaced)));
            &&& label != ValueView::Text(SecOID::CommonName.spec_key()) ==> after.common_name
                == before.common_name
            &&& label != ValueView::Text(SecOID::Org.spec_key()) ==> after.organization
                == before.organization
            &&& label != ValueView::Text(SecOID::OrgUnit.spec_key()) ==> after.organization_unit
                == before.organization_unit
            &&& label != ValueView::Text(SecOID::Country.spec_key()) ==> after.country
                == before.country
        }),
{
    if label != ValueView::Text(SecOID::CommonName.spec_key()) {
        lemma_sub_value_other_label(values, at, replaced, label, SecOID::CommonName.spec_key());
    }
    if label != ValueView::Text(SecOID::Org.spec_key()) {
        lemma_sub_value_other_label(values, at, replaced, label, SecOID::Org.spec_key());
    }
    if label != ValueView::Text(SecOID::OrgUnit.spec_key()) {
        lemma_sub_value_other_label(values, at, replaced, label, SecOID::OrgUnit.spec_key());
    }
    if label != ValueView::Text(SecOID::Country.spec_key()) {
        lemma_sub_value_other_label(values, at, replaced, label, SecOID::Country.spec_key());
    }
}

/// The additional properties are there exactly where the code-directory hash
/// is: without it (and so without any signing information) there are none,
/// not an empty list; with it the list is not empty, and its last entry is
/// `cd_hash` with the hash.
pub proof fn lemma_additional_properties_hold_cd_hash(all: DictionaryView)
    ensures
        spec_additional_properties(all) is Some <==> spec_cd_hash(all) is Some,
        all.len() == 0 ==> spec_additional_properties(all) is None,
        spec_additional_properties(all) matches Some(properties) ==> properties.len() > 0
            && properties.last() == ("cd_hash"@, spec_cd_hash(all)->0),
{
}

/// The place of a property's name in the fixed order of the list.
spec fn name_order(name: Seq<char>) -> int {
    if name == "bundle_id"@ {
        0
    } else if name == "short_version"@ {
        1
    } else if name == "bundle_version"@ {
        2
    } else if name == "team_id"@ {
        3
    } else if name == "platform_id"@ {
        4
    } else if name == "cd_hash"@ {
        5
    } else {
        6
    }
}

/// Whether the names in `pairs` have their places from `from` up to, and not
/// including, `below`, and stand in the order of those places.
spec fn names_ascend(pairs: Seq<(Seq<char>, Seq<char>)>, from: int, below: int) -> bool {
    &&& forall|k: int|
        0 <= k < pairs.len() ==> from <= name_order(#[trigger] pairs[k].0) < below
    &&& forall|i: int, j: int|
        0 <= i < j < pairs.len() ==> name_order(#[trigger] pairs[i].0) < name_order(
            #[trigger] pairs[j].0,
        )
}

proof fn lemma_name_orders()
    ensures
        name_order("bundle_id"@) == 0,
        name_order("short_version"@) == 1,
        name_order("bundle_version"@) == 2,
        name_order("team_id"@) == 3,
        name_order("platform_id"@) == 4,
        name_order("cd_hash"@) == 5,
{
    reveal_strlit("bundle_id");
    reveal_strlit("short_version");
    reveal_strlit("bundle_version");
    reveal_strlit("team_id");
    reveal_strlit("platform_id");
    reveal_strlit("cd_hash");
    assert("bundle_id"@.len() == 9);
    assert("short_version"@.len() == 13);
    assert("bundle_version"@.len() == 14);
    assert("team_id"@.len() == 7);
    assert("platform_id"@.len() == 11);
    assert("cd_hash"@.len() == 7);
    assert("cd_hash"@[0] != "team_id"@[0]);
}

proof fn lemma_names_ascend_joined(
    first: Seq<(Seq<char>, Seq<char>)>,
    second: Seq<(Seq<char>, Seq<char>)>,
    from: int,
    middle: int,
    below: int,
)
    requires
        names_ascend(first, from, middle),
        names_ascend(second, middle, below),
        from <= middle <= below,
    ensures
        names_ascend(first + second, from, below),
{
    let joined = first + second;
    assert forall|k: int| 0 <= k < joined.len() implies from <= name_order(
        #[trigger] joined[k].0,
    ) < below by {
        if k < first.len() {
            assert(joined[k] == first[k]);
        } else {
            assert(joined[k] == second[k - first.len()]);
        }
    }
    assert forall|i: int, j: int| 0 <= i < j < joined.len() implies name_order(
        #[trigger] joined[i].0,
    ) < name_order(#[trigger] joined[j].0) by {
        if j < first.len() {
            assert(joined[i] == first[i] && joined[j] == first[j]);
        } else if i < first.len() {
            assert(joined[i] == first[i] && joined[j] == second[j - first.len()]);
        } else {
            assert(joined[i] == second[i - first.len()] && joined[j] == second[j - first.len()]);
        }
    }
}

/// No name occurs twice among the additional properties.
pub proof fn lemma_additional_property_names_differ(all: DictionaryView, i: int, j: int)
    requires
        spec_additional_properties(all) is Some,
        0 <= i < j < spec_additional_properties(all)->0.len(),
    ensures
        spec_additional_properties(all)->0[i].0 != spec_additional_properties(all)->0[j].0,
{
    lemma_name_orders();
    let bundle = spec_bundle_entries(all);
    let team = spec_entry("team_id"@, spec_team_id(all));
    let platform = spec_entry("platform_id"@, spec_platform_id(all));
    let hash = seq![("cd_hash"@, spec_cd_hash(all)->0)];
    assert(names_ascend(bundle, 0, 3)) by {
        match spec_info_plist(all) {
            Some(plist) => {
                let id = spec_entry("bundle_id"@, spec_text_at(plist, "CFBundleIdentifier"@));
                let short = spec_entry(
                    "short_version"@,
                    spec_text_at(plist, "CFBundleShortVersionString"@),
                );
                let version = spec_entry(
                    "bundle_version"@,
                    spec_text_at(plist, "CFBundleVersion"@),
                );
                assert(names_ascend(id, 0, 1));
                assert(names_ascend(short, 1, 2));
                assert(names_ascend(version, 2, 3));
                lemma_names_ascend_joined(id, short, 0, 1, 2);
                lemma_names_ascend_joined(id + short, version, 0, 2, 3);
            },
            None => {},
        }
    }
    assert(names_ascend(team, 3, 4));
    assert(names_ascend(platform, 4, 5));
    assert(names_ascend(hash, 5, 6));
    lemma_names_ascend_joined(bundle, team, 0, 3, 4);
    lemma_names_ascend_joined(bundle + team, platform, 0, 4, 5);
    lemma_names_ascend_joined(bundle + team + platform, hash, 0, 5, 6);
    let properties = spec_additional_properties(all)->0;
    assert(name_order(properties[i].0) < name_order(properties[j].0));
}

} // verus!
