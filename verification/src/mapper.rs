//! The registry that translates between field identifiers and field names.

use crate::json::json_object;
use crate::record::{
    distinct_keys, entries_view, has_key, lemma_rekeyed_has_key, lemma_rekeyed_without_collision,
    rekeyed, with_keys, Entries, Record,
};
use crate::text::{
    chars_of, decimal, format_u64, is_digit, lemma_decimal_injective, lemma_parse_decimal,
    parse_u64_from, parsed_u64, text_of,
};
use crate::TableField;
use serde_json::Value;
use std::collections::HashMap;
use vstd::prelude::*;
use vstd::string::StringExecFns;

verus! {

broadcast use vstd::std_specs::hash::group_hash_axioms;

/// The name registered for `id`: that of the last field in `fields` with that
/// identifier.
pub open spec fn name_of(fields: Seq<TableField>, id: u64) -> Option<Seq<char>>
    decreases fields.len(),
{
    if fields.len() == 0 {
        None
    } else if fields.last().id == id {
        Some(fields.last().name@)
    } else {
        name_of(fields.drop_last(), id)
    }
}

/// The identifier registered for `name`: that of the last field in `fields`
/// with exactly that name.
pub open spec fn id_of(fields: Seq<TableField>, name: Seq<char>) -> Option<u64>
    decreases fields.len(),
{
    if fields.len() == 0 {
        None
    } else if fields.last().name@ == name {
        Some(fields.last().id)
    } else {
        id_of(fields.drop_last(), name)
    }
}

/// The prefix of a key that addresses a field by its identifier.
pub open spec fn key_prefix() -> Seq<char> {
    seq!['f', 'i', 'e', 'l', 'd', '_']
}

/// The key that addresses the field `id`: `field_` and the decimal numeral.
pub open spec fn field_key(id: u64) -> Seq<char> {
    key_prefix() + decimal(id as nat)
}

/// The identifier that `key` denotes when read as a bare numeral.
pub open spec fn bare_id(key: Seq<char>) -> Option<u64> {
    parsed_u64(key)
}

/// The identifier that `key` denotes when read as `field_` and a numeral.
pub open spec fn prefixed_id(key: Seq<char>) -> Option<u64> {
    if key_prefix().is_prefix_of(key) {
        parsed_u64(key.skip(6))
    } else {
        None
    }
}

/// The name that `key` resolves to, if any: the key is first read as a bare
/// numeral; if that names no registered field, as `field_` and a numeral.
pub open spec fn resolved_name(fields: Seq<TableField>, key: Seq<char>) -> Option<Seq<char>> {
    let bare = match bare_id(key) {
        Some(id) => name_of(fields, id),
        None => None,
    };
    if bare is Some {
        bare
    } else {
        match prefixed_id(key) {
            Some(id) => name_of(fields, id),
            None => None,
        }
    }
}

/// The key under which an entry with the key `key` is stored when a record is
/// converted to field names: the resolved name, or the key itself.
pub open spec fn name_key(fields: Seq<TableField>, key: Seq<char>) -> Seq<char> {
    match resolved_name(fields, key) {
        Some(name) => name,
        None => key,
    }
}

/// The key under which an entry with the key `key` is stored when a record is
/// converted to field identifiers: the key of the field registered under that
/// name, or the key itself.
pub open spec fn id_key(fields: Seq<TableField>, key: Seq<char>) -> Seq<char> {
    match id_of(fields, key) {
        Some(id) => field_key(id),
        None => key,
    }
}

/// `name_key` for a fixed list of fields, as a rule on keys.
pub open spec fn to_names(fields: Seq<TableField>) -> spec_fn(Seq<char>) -> Seq<char> {
    |key: Seq<char>| name_key(fields, key)
}

/// `id_key` for a fixed list of fields, as a rule on keys.
pub open spec fn to_ids(fields: Seq<TableField>) -> spec_fn(Seq<char>) -> Seq<char> {
    |key: Seq<char>| id_key(fields, key)
}

/// A registry of fields that answers lookups in both directions.
pub trait FieldMapper: Clone {
    /// The fields that the registry was last built from.
    spec fn mapped_fields(&self) -> Seq<TableField>;

    /// Replaces the whole registry by one built from `fields`.
    fn map_fields(&mut self, fields: Vec<TableField>)
        ensures
            final(self).mapped_fields() == fields@,
    ;

    /// The identifier registered for exactly the name `name`.
    fn get_field_id(&self, name: &str) -> (id: Option<u64>)
        ensures
            id == id_of(self.mapped_fields(), name@),
    ;

    /// The name registered for the identifier `id`.
    fn get_field_name(&self, id: u64) -> (name: Option<String>)
        ensures
            text_of(name) == name_of(self.mapped_fields(), id),
    ;

    /// The fields that the registry was last built from.
    fn get_fields(&self) -> (fields: Vec<TableField>)
        ensures
            fields@ == self.mapped_fields(),
    ;
}

/// Whether the index `names` answers for `id` what the list `fields` says:
/// the name of the last field with that identifier, or nothing.
spec fn indexed(names: Map<u64, String>, fields: Seq<TableField>, id: u64) -> bool {
    match name_of(fields, id) {
        Some(name) => names.contains_key(id) && names[id]@ == name,
        None => !names.contains_key(id),
    }
}

/// The registry of a table: the fields from the last schema discovery, and
/// an index from identifiers to names that is built from them and always
/// agrees with them. A lookup finds the last field that matches, so that of
/// two fields with the same name or identifier the later one is the one
/// registered.
///
/// Identifiers are looked up in the index. Names are looked up in the fields
/// themselves, from the last to the first: an index with text for keys would
/// be a hash map of which nothing could be proved, as vstd models the keys of
/// a `HashMap` for the integer types and `bool` only.
#[derive(Debug)]
pub struct TableMapper {
    fields: Vec<TableField>,
    ids_to_names: HashMap<u64, String>,
}

impl Clone for TableMapper {
    fn clone(&self) -> (copy: Self)
        ensures
            copy.mapped_fields() == self.mapped_fields(),
    {
        let mut copy = TableMapper::new();
        copy.map_fields(self.get_fields());
        copy
    }
}

impl Default for TableMapper {
    fn default() -> (mapper: Self)
        ensures
            mapper.mapped_fields() == Seq::<TableField>::empty(),
    {
        TableMapper::new()
    }
}

impl FieldMapper for TableMapper {
    closed spec fn mapped_fields(&self) -> Seq<TableField> {
        self.fields@
    }

    fn map_fields(&mut self, fields: Vec<TableField>) {
        let mut index: HashMap<u64, String> = HashMap::new();
        let mut i: usize = 0;
        while i < fields.len()
            invariant
                i <= fields.len(),
                forall|id: u64| #[trigger] indexed(index@, fields@.take(i as int), id),
            decreases fields.len() - i,
        {
            let ghost before = index@;
            index.insert(fields[i].id, fields[i].name.clone());
            proof {
                let seen = fields@.take(i as int);
                let next = fields@.take(i + 1);
                assert(next.drop_last() =~= seen);
                assert forall|id: u64| #[trigger] indexed(index@, next, id) by {
                    assert(indexed(before, seen, id));
                }
            }
            i += 1;
        }
        assert(fields@.take(i as int) =~= fields@);
        *self = TableMapper { fields, ids_to_names: index };
    }

    fn get_field_id(&self, name: &str) -> (id: Option<u64>) {
        let mut i: usize = self.fields.len();
        assert(self.fields@.take(i as int) =~= self.fields@);
        while i > 0
            invariant
                i <= self.fields.len(),
                id_of(self.fields@, name@) == id_of(self.fields@.take(i as int), name@),
            decreases i,
        {
            i -= 1;
            assert(self.fields@.take(i + 1).drop_last() =~= self.fields@.take(i as int));
            if self.fields[i].name.as_str().eq(name) {
                return Some(self.fields[i].id);
            }
        }
        None
    }

    fn get_field_name(&self, id: u64) -> (name: Option<String>) {
        proof {
            use_type_invariant(self);
            assert(indexed(self.ids_to_names@, self.fields@, id));
        }
        match self.ids_to_names.get(&id) {
            Some(name) => Some(name.clone()),
            None => None,
        }
    }

    fn get_fields(&self) -> (fields: Vec<TableField>) {
        let mut fields: Vec<TableField> = Vec::new();
        let mut i: usize = 0;
        while i < self.fields.len()
            invariant
                i <= self.fields.len(),
                fields@ == self.fields@.take(i as int),
            decreases self.fields.len() - i,
        {
            fields.push(self.fields[i].clone());
            assert(fields@ =~= self.fields@.take(i + 1));
            i += 1;
        }
        assert(self.fields@.take(i as int) =~= self.fields@);
        fields
    }
}

/// Writes the key that addresses the field `id`.
pub fn field_key_for(id: u64) -> (key: String)
    ensures
        key@ == field_key(id),
{
    let mut key = String::from_str("field_");
    let digits = format_u64(id);
    key.append(digits.as_str());
    proof {
        reveal_strlit("field_");
        assert("field_"@ =~= key_prefix());
    }
    key
}

fn has_key_prefix(chars: &Vec<char>) -> (yes: bool)
    ensures
        yes == key_prefix().is_prefix_of(chars@),
{
    let yes = chars.len() >= 6 && chars[0] == 'f' && chars[1] == 'i' && chars[2] == 'e'
        && chars[3] == 'l' && chars[4] == 'd' && chars[5] == '_';
    proof {
        if yes {
            assert(chars@.subrange(0, 6) =~= key_prefix());
        } else if key_prefix().is_prefix_of(chars@) {
            assert(chars@.subrange(0, 6) == key_prefix());
            assert(chars@[0] == key_prefix()[0]);
            assert(chars@[1] == key_prefix()[1]);
            assert(chars@[2] == key_prefix()[2]);
            assert(chars@[3] == key_prefix()[3]);
            assert(chars@[4] == key_prefix()[4]);
            assert(chars@[5] == key_prefix()[5]);
        }
    }
    yes
}

impl TableMapper {
    #[verifier::type_invariant]
    spec fn in_sync(&self) -> bool {
        forall|id: u64| #[trigger] indexed(self.ids_to_names@, self.fields@, id)
    }

    /// A registry without fields.
    pub fn new() -> (mapper: Self)
        ensures
            mapper.mapped_fields() == Seq::<TableField>::empty(),
    {
        TableMapper { fields: Vec::new(), ids_to_names: HashMap::new() }
    }

    /// The name that `key` resolves to, if any.
    pub fn resolve_name(&self, key: &str) -> (name: Option<String>)
        ensures
            text_of(name) == resolved_name(self.mapped_fields(), key@),
    {
        let chars = chars_of(key);
        assert(chars@.skip(0) =~= key@);
        if let Some(id) = parse_u64_from(&chars, 0) {
            let name = self.get_field_name(id);
            if name.is_some() {
                return name;
            }
        }
        if has_key_prefix(&chars) {
            if let Some(id) = parse_u64_from(&chars, 6) {
                return self.get_field_name(id);
            }
        }
        None
    }

    /// Rewrites the keys of `row` to field names. A key that resolves to a
    /// registered field, as a bare numeral or as `field_` and a numeral, is
    /// replaced by that field's name; every other key stays. Values are not
    /// touched. Entries are stored in their order, so that of two keys with
    /// the same name the later one's value is kept.
    pub fn convert_to_field_names(&self, row: Record) -> (converted: Record)
        ensures
            converted@ == rekeyed(row@, to_names(self.mapped_fields())),
    {
        let ghost all = row@;
        let ghost rule = to_names(self.mapped_fields());
        let entries = row.into_entries();
        let mut converted = Record::new();
        for entry in it: entries
            invariant
                it.seq() == entries@,
                all == entries_view(entries@),
                rule == to_names(self.mapped_fields()),
                converted@ == rekeyed(all.take(it.index() as int), rule),
        {
            proof {
                let n = it.index() as int;
                assert(entry == entries@[n]);
                assert(all.take(n + 1).drop_last() =~= all.take(n));
                assert(all.take(n + 1).last() == (entry.0@, entry.1));
            }
            let key = match self.resolve_name(entry.0.as_str()) {
                Some(name) => name,
                None => entry.0,
            };
            converted.insert(key, entry.1);
        }
        assert(all.take(all.len() as int) =~= all);
        converted
    }

    /// The JSON object of `row` with its keys rewritten to field names: the
    /// value from which a caller reads the row as a type of its own, so that a
    /// row that lacks a field of that type, or holds a value of another kind,
    /// is refused by the reader and never filled in.
    pub fn row_value(&self, row: Record) -> (object: Value)
        ensures
            object == json_object(rekeyed(row@, to_names(self.mapped_fields()))),
    {
        self.convert_to_field_names(row).into_value()
    }

    /// Rewrites the keys of `row` to field keys. A key that is the name of a
    /// registered field is replaced by `field_` and that field's identifier;
    /// every other key stays. Values are not touched.
    pub fn convert_to_field_ids(&self, row: Record) -> (converted: Record)
        ensures
            converted@ == rekeyed(row@, to_ids(self.mapped_fields())),
    {
        let ghost all = row@;
        let ghost rule = to_ids(self.mapped_fields());
        let entries = row.into_entries();
        let mut converted = Record::new();
        for entry in it: entries
            invariant
                it.seq() == entries@,
                all == entries_view(entries@),
                rule == to_ids(self.mapped_fields()),
                converted@ == rekeyed(all.take(it.index() as int), rule),
        {
            proof {
                let n = it.index() as int;
                assert(entry == entries@[n]);
                assert(all.take(n + 1).drop_last() =~= all.take(n));
                assert(all.take(n + 1).last() == (entry.0@, entry.1));
            }
            let key = match self.get_field_id(entry.0.as_str()) {
                Some(id) => field_key_for(id),
                None => entry.0,
            };
            converted.insert(key, entry.1);
        }
        assert(all.take(all.len() as int) =~= all);
        converted
    }
}

/// An identifier resolves to a name exactly when some field of the list has
/// it. So after `map_fields(fields)` an identifier that does not occur in
/// `fields` is unknown, whatever was registered before.
pub proof fn law_id_known_iff_listed(fields: Seq<TableField>, id: u64)
    ensures
        name_of(fields, id) is Some <==> exists|i: int|
            0 <= i < fields.len() && (#[trigger] fields[i]).id == id,
    decreases fields.len(),
{
    if fields.len() > 0 {
        let front = fields.drop_last();
        law_id_known_iff_listed(front, id);
        if fields.last().id == id {
            assert(fields[fields.len() - 1].id == id);
        } else {
            if name_of(front, id) is Some {
                let i = choose|i: int| 0 <= i < front.len() && (#[trigger] front[i]).id == id;
                assert(fields[i].id == id);
            }
            if exists|i: int| 0 <= i < fields.len() && (#[trigger] fields[i]).id == id {
                let i = choose|i: int| 0 <= i < fields.len() && (#[trigger] fields[i]).id == id;
                assert(front[i].id == id);
            }
        }
    }
}

/// A name resolves to an identifier exactly when some field of the list has
/// it. So after `map_fields(fields)` a name that does not occur in `fields`
/// is unknown, whatever was registered before.
pub proof fn law_name_known_iff_listed(fields: Seq<TableField>, name: Seq<char>)
    ensures
        id_of(fields, name) is Some <==> exists|i: int|
            0 <= i < fields.len() && (#[trigger] fields[i]).name@ == name,
    decreases fields.len(),
{
    if fields.len() > 0 {
        let front = fields.drop_last();
        law_name_known_iff_listed(front, name);
        if fields.last().name@ == name {
            assert(fields[fields.len() - 1].name@ == name);
        } else {
            if id_of(front, name) is Some {
                let i = choose|i: int| 0 <= i < front.len() && (#[trigger] front[i]).name@ == name;
                assert(fields[i].name@ == name);
            }
            if exists|i: int| 0 <= i < fields.len() && (#[trigger] fields[i]).name@ == name {
                let i = choose|i: int|
                    0 <= i < fields.len() && (#[trigger] fields[i]).name@ == name;
                assert(front[i].name@ == name);
            }
        }
    }
}

/// The two lookups undo each other on a field that no later field of the
/// list shadows: if no field after `fields[i]` has its identifier or its
/// name, then its identifier resolves to its name and its name to its
/// identifier.
pub proof fn law_lookup_round_trip(fields: Seq<TableField>, i: int)
    requires
        0 <= i < fields.len(),
        forall|j: int|
            i < j < fields.len() ==> (#[trigger] fields[j]).id != fields[i].id && fields[j].name@
                != fields[i].name@,
    ensures
        name_of(fields, fields[i].id) == Some(fields[i].name@),
        id_of(fields, fields[i].name@) == Some(fields[i].id),
    decreases fields.len(),
{
    if i < fields.len() - 1 {
        let front = fields.drop_last();
        assert(fields[fields.len() - 1].id != fields[i].id);
        assert forall|j: int| i < j < front.len() implies (#[trigger] front[j]).id != front[i].id
            && front[j].name@ != front[i].name@ by {
            assert(front[j] == fields[j]);
        }
        law_lookup_round_trip(front, i);
    }
}

/// A field key is no bare numeral, and denotes its identifier when read as
/// `field_` and a numeral; so it resolves to whatever name the identifier has.
pub proof fn lemma_field_key_resolves(fields: Seq<TableField>, id: u64)
    ensures
        bare_id(field_key(id)) is None,
        prefixed_id(field_key(id)) == Some(id),
        resolved_name(fields, field_key(id)) == name_of(fields, id),
{
    let key = field_key(id);
    assert(key[0] == 'f');
    assert(!is_digit(key[0]));
    assert(key.subrange(0, 6) =~= key_prefix());
    assert(key.skip(6) =~= decimal(id as nat));
    lemma_parse_decimal(id);
}

/// Two fields with the same key are the same field.
pub proof fn law_field_key_identifies_field(a: u64, b: u64)
    requires
        field_key(a) == field_key(b),
    ensures
        a == b,
{
    assert(field_key(a).skip(6) =~= decimal(a as nat));
    assert(field_key(b).skip(6) =~= decimal(b as nat));
    lemma_decimal_injective(a as nat, b as nat);
}

/// Converting a record to field names and back to field keys restores the
/// key `field_<id>` of an entry, provided that the name registered for `id`
/// leads back to `id`.
pub proof fn law_round_trip_restores_key(fields: Seq<TableField>, row: Entries, i: int, id: u64)
    requires
        0 <= i < row.len(),
        row[i].0 == field_key(id),
        name_of(fields, id) is Some,
        id_of(fields, name_of(fields, id)->0) == Some(id),
    ensures
        has_key(rekeyed(rekeyed(row, to_names(fields)), to_ids(fields)), row[i].0),
{
    lemma_field_key_resolves(fields, id);
    lemma_round_trip_key(fields, row, i);
}

/// Converting a record to field names and back to field keys keeps a key
/// that resolves to no name and is no registered name itself.
pub proof fn law_round_trip_keeps_unmapped_key(fields: Seq<TableField>, row: Entries, i: int)
    requires
        0 <= i < row.len(),
        resolved_name(fields, row[i].0) is None,
        id_of(fields, row[i].0) is None,
    ensures
        has_key(rekeyed(rekeyed(row, to_names(fields)), to_ids(fields)), row[i].0),
{
    lemma_round_trip_key(fields, row, i);
}

proof fn lemma_round_trip_key(fields: Seq<TableField>, row: Entries, i: int)
    requires
        0 <= i < row.len(),
    ensures
        has_key(
            rekeyed(rekeyed(row, to_names(fields)), to_ids(fields)),
            id_key(fields, name_key(fields, row[i].0)),
        ),
{
    let named = rekeyed(row, to_names(fields));
    lemma_rekeyed_has_key(row, to_names(fields), i);
    let j = choose|j: int| 0 <= j < named.len() && (#[trigger] named[j]).0 == name_key(
        fields,
        row[i].0,
    );
    lemma_rekeyed_has_key(named, to_ids(fields), j);
}

/// Converting a record to field names and back to field keys gives the
/// record back, entry for entry, where every key is restored by the two
/// rules and no two keys are given the same name.
pub proof fn law_round_trip_restores_record(fields: Seq<TableField>, row: Entries)
    requires
        distinct_keys(row),
        forall|i: int|
            0 <= i < row.len() ==> id_key(fields, name_key(fields, (#[trigger] row[i]).0))
                == row[i].0,
        forall|i: int, j: int|
            0 <= i < j < row.len() ==> name_key(fields, (#[trigger] row[i]).0) != name_key(
                fields,
                (#[trigger] row[j]).0,
            ),
    ensures
        rekeyed(rekeyed(row, to_names(fields)), to_ids(fields)) == row,
{
    let names = to_names(fields);
    let ids = to_ids(fields);
    lemma_rekeyed_without_collision(row, names);
    let named = with_keys(row, names);
    assert forall|i: int, j: int| 0 <= i < j < named.len() implies ids((#[trigger] named[i]).0)
        != ids((#[trigger] named[j]).0) by {
        assert(ids(named[i].0) == row[i].0);
        assert(ids(named[j].0) == row[j].0);
    }
    lemma_rekeyed_without_collision(named, ids);
    assert(with_keys(named, ids) =~= row) by {
        assert forall|i: int| 0 <= i < row.len() implies with_keys(named, ids)[i] == row[i] by {
            assert(ids(named[i].0) == row[i].0);
        }
    }
}

/// Converting to field keys leaves a record as it is when none of its keys
/// is a registered name; so converting a second time changes nothing more.
pub proof fn law_field_ids_fixed_point(fields: Seq<TableField>, row: Entries)
    requires
        distinct_keys(row),
        forall|i: int| 0 <= i < row.len() ==> id_of(fields, (#[trigger] row[i]).0) is None,
    ensures
        rekeyed(row, to_ids(fields)) == row,
{
    let ids = to_ids(fields);
    assert forall|i: int, j: int| 0 <= i < j < row.len() implies ids((#[trigger] row[i]).0)
        != ids((#[trigger] row[j]).0) by {
        assert(ids(row[i].0) == row[i].0);
        assert(ids(row[j].0) == row[j].0);
    }
    lemma_rekeyed_without_collision(row, ids);
    assert(with_keys(row, ids) =~= row) by {
        assert forall|i: int| 0 <= i < row.len() implies with_keys(row, ids)[i] == row[i] by {
            assert(ids(row[i].0) == row[i].0);
        }
    }
}

} // verus!
