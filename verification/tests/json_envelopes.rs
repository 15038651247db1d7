use std::fmt;
use std::hash::Hash;
use std::marker::PhantomData;

use desfn::absent::{Absent, MissingFieldDeserializer, Query};
use desfn::encode::{Envelope, ErasedSerdeSerializeWrapper, SerializationMap};
use desfn::envelope::Field;
use desfn::erased::unknown_key;
use desfn::error::DecodeError;
use desfn::field::{TagContentOtherField, TagContentOtherFieldVisitor};
use desfn::machine::{expect_element, Action, Event, Machine, Source};
use desfn::registry::{after_unit, DeserializationMap};
use serde::de::{
    DeserializeSeed, EnumAccess, Error, IgnoredAny, MapAccess, SeqAccess, VariantAccess, Visitor,
};
use serde::ser::SerializeStruct;
use serde::{Deserialize, Deserializer, Serialize, Serializer};
use serde_value::{Value, ValueDeserializer};

type DeserializationFn<T> = Box<
    dyn Fn(&mut dyn erased_serde::Deserializer) -> Result<T, erased_serde::Error> + Send + Sync,
>;

type Registry = DeserializationMap<String, DeserializationFn<Box<dyn TestTrait>>>;

trait TestTrait: erased_serde::Serialize {
    fn key(&self) -> &'static str;
    fn name(&self) -> &str;
}

struct TestStructA {
    name: String,
}

impl TestTrait for TestStructA {
    fn key(&self) -> &'static str {
        "A"
    }
    fn name(&self) -> &str {
        self.name.as_str()
    }
}

#[derive(Debug, PartialEq, Eq)]
enum TestEnumB {
    Pizza,
    Broccoli,
}

impl TestTrait for TestEnumB {
    fn key(&self) -> &'static str {
        "B"
    }
    fn name(&self) -> &str {
        match self {
            TestEnumB::Pizza => "pizza",
            TestEnumB::Broccoli => "yuck",
        }
    }
}

struct TestUnitC;

impl TestTrait for TestUnitC {
    fn key(&self) -> &'static str {
        "C"
    }
    fn name(&self) -> &str {
        "just a c"
    }
}

impl Serialize for TestStructA {
    fn serialize<S: Serializer>(&self, serializer: S) -> Result<S::Ok, S::Error> {
        let mut state = serializer.serialize_struct("TestStructA", 1)?;
        state.serialize_field("name", &self.name)?;
        state.end()
    }
}

impl Serialize for TestEnumB {
    fn serialize<S: Serializer>(&self, serializer: S) -> Result<S::Ok, S::Error> {
        match self {
            TestEnumB::Pizza => serializer.serialize_unit_variant("TestEnumB", 0, "Pizza"),
            TestEnumB::Broccoli => serializer.serialize_unit_variant("TestEnumB", 1, "Broccoli"),
        }
    }
}

impl Serialize for TestUnitC {
    fn serialize<S: Serializer>(&self, serializer: S) -> Result<S::Ok, S::Error> {
        serializer.serialize_unit_struct("TestUnitC")
    }
}

struct StructAVisitor;

impl<'de> Visitor<'de> for StructAVisitor {
    type Value = TestStructA;

    fn expecting(&self, formatter: &mut fmt::Formatter) -> fmt::Result {
        formatter.write_str("struct TestStructA")
    }

    fn visit_map<A: MapAccess<'de>>(self, mut map: A) -> Result<TestStructA, A::Error> {
        let mut name: Option<String> = None;
        while let Some(field) = map.next_key::<String>()? {
            if field == "name" {
                if name.is_some() {
                    return Err(A::Error::duplicate_field("name"));
                }
                name = Some(map.next_value()?);
            } else {
                map.next_value::<IgnoredAny>()?;
            }
        }
        match name {
            Some(name) => Ok(TestStructA { name }),
            None => Err(A::Error::missing_field("name")),
        }
    }
}

impl<'de> Deserialize<'de> for TestStructA {
    fn deserialize<D: Deserializer<'de>>(deserializer: D) -> Result<Self, D::Error> {
        deserializer.deserialize_struct("TestStructA", &["name"], StructAVisitor)
    }
}

struct EnumBVisitor;

impl<'de> Visitor<'de> for EnumBVisitor {
    type Value = TestEnumB;

    fn expecting(&self, formatter: &mut fmt::Formatter) -> fmt::Result {
        formatter.write_str("enum TestEnumB")
    }

    fn visit_enum<A: EnumAccess<'de>>(self, data: A) -> Result<TestEnumB, A::Error> {
        let (name, variant) = data.variant::<String>()?;
        variant.unit_variant()?;
        match name.as_str() {
            "Pizza" => Ok(TestEnumB::Pizza),
            "Broccoli" => Ok(TestEnumB::Broccoli),
            other => Err(A::Error::unknown_variant(other, &["Pizza", "Broccoli"])),
        }
    }
}

impl<'de> Deserialize<'de> for TestEnumB {
    fn deserialize<D: Deserializer<'de>>(deserializer: D) -> Result<Self, D::Error> {
        deserializer.deserialize_enum("TestEnumB", &["Pizza", "Broccoli"], EnumBVisitor)
    }
}

struct UnitCVisitor;

impl<'de> Visitor<'de> for UnitCVisitor {
    type Value = TestUnitC;

    fn expecting(&self, formatter: &mut fmt::Formatter) -> fmt::Result {
        formatter.write_str("unit struct TestUnitC")
    }

    fn visit_unit<E: Error>(self) -> Result<TestUnitC, E> {
        Ok(TestUnitC)
    }
}

impl<'de> Deserialize<'de> for TestUnitC {
    fn deserialize<D: Deserializer<'de>>(deserializer: D) -> Result<Self, D::Error> {
        deserializer.deserialize_unit_struct("TestUnitC", UnitCVisitor)
    }
}

fn into_serde_error<K, E: Error>(e: DecodeError<K>) -> E {
    match e {
        DecodeError::MissingField(name) => E::missing_field(name),
        DecodeError::DuplicateField(name) => E::duplicate_field(name),
        DecodeError::UnknownKey(_) => E::custom(unknown_key()),
        DecodeError::InvalidLength(index) => E::invalid_length(index, &"adjacently tagged enum"),
        DecodeError::PayloadDecodeFailed(message) => E::custom(message),
        DecodeError::Custom(message) => E::custom(message),
    }
}

/// A decoder for the content of a record that has none. Every request is
/// put to the library, which lets a unit and an empty option through and
/// answers any other with the missing field.
pub struct MissingField<E>(pub &'static str, pub PhantomData<E>);

impl<E: Error> MissingField<E> {
    pub fn new(field: &'static str) -> Self {
        MissingField(field, PhantomData)
    }

    fn reply<'de, V: Visitor<'de>>(self, query: Query, visitor: V) -> Result<V::Value, E> {
        match MissingFieldDeserializer(self.0).answer::<()>(query) {
            Ok(Absent::Unit) => visitor.visit_unit(),
            Ok(Absent::Nothing) => visitor.visit_none(),
            Err(e) => Err(into_serde_error(e)),
        }
    }
}

impl<'de, E: Error> Deserializer<'de> for MissingField<E> {
    type Error = E;

    fn deserialize_any<V: Visitor<'de>>(self, visitor: V) -> Result<V::Value, E> {
        self.reply(Query::Any, visitor)
    }

    fn deserialize_bool<V: Visitor<'de>>(self, visitor: V) -> Result<V::Value, E> {
        self.reply(Query::Bool, visitor)
    }

    fn deserialize_i8<V: Visitor<'de>>(self, visitor: V) -> Result<V::Value, E> {
        self.reply(Query::Integer, visitor)
    }

    fn deserialize_i16<V: Visitor<'de>>(self, visitor: V) -> Result<V::Value, E> {
        self.reply(Query::Integer, visitor)
    }

    fn deserialize_i32<V: Visitor<'de>>(self, visitor: V) -> Result<V::Value, E> {
        self.reply(Query::Integer, visitor)
    }

    fn deserialize_i64<V: Visitor<'de>>(self, visitor: V) -> Result<V::Value, E> {
        self.reply(Query::Integer, visitor)
    }

    fn deserialize_i128<V: Visitor<'de>>(self, visitor: V) -> Result<V::Value, E> {
        self.reply(Query::Integer, visitor)
    }

    fn deserialize_u8<V: Visitor<'de>>(self, visitor: V) -> Result<V::Value, E> {
        self.reply(Query::Integer, visitor)
    }

    fn deserialize_u16<V: Visitor<'de>>(self, visitor: V) -> Result<V::Value, E> {
        self.reply(Query::Integer, visitor)
    }

    fn deserialize_u32<V: Visitor<'de>>(self, visitor: V) -> Result<V::Value, E> {
        self.reply(Query::Integer, visitor)
    }

    fn deserialize_u64<V: Visitor<'de>>(self, visitor: V) -> Result<V::Value, E> {
        self.reply(Query::Integer, visitor)
    }

    fn deserialize_u128<V: Visitor<'de>>(self, visitor: V) -> Result<V::Value, E> {
        self.reply(Query::Integer, visitor)
    }

    fn deserialize_f32<V: Visitor<'de>>(self, visitor: V) -> Result<V::Value, E> {
        self.reply(Query::Float, visitor)
    }

    fn deserialize_f64<V: Visitor<'de>>(self, visitor: V) -> Result<V::Value, E> {
        self.reply(Query::Float, visitor)
    }

    fn deserialize_char<V: Visitor<'de>>(self, visitor: V) -> Result<V::Value, E> {
        self.reply(Query::Char, visitor)
    }

    fn deserialize_str<V: Visitor<'de>>(self, visitor: V) -> Result<V::Value, E> {
        self.reply(Query::Str, visitor)
    }

    fn deserialize_string<V: Visitor<'de>>(self, visitor: V) -> Result<V::Value, E> {
        self.reply(Query::Str, visitor)
    }

    fn deserialize_bytes<V: Visitor<'de>>(self, visitor: V) -> Result<V::Value, E> {
        self.reply(Query::Bytes, visitor)
    }

    fn deserialize_byte_buf<V: Visitor<'de>>(self, visitor: V) -> Result<V::Value, E> {
        self.reply(Query::Bytes, visitor)
    }

    fn deserialize_option<V: Visitor<'de>>(self, visitor: V) -> Result<V::Value, E> {
        self.reply(Query::Option, visitor)
    }

    fn deserialize_unit<V: Visitor<'de>>(self, visitor: V) -> Result<V::Value, E> {
        self.reply(Query::Unit, visitor)
    }

    fn deserialize_unit_struct<V: Visitor<'de>>(
        self,
        _name: &'static str,
        visitor: V,
    ) -> Result<V::Value, E> {
        self.reply(Query::UnitStruct, visitor)
    }

    fn deserialize_newtype_struct<V: Visitor<'de>>(
        self,
        _name: &'static str,
        visitor: V,
    ) -> Result<V::Value, E> {
        self.reply(Query::NewtypeStruct, visitor)
    }

    fn deserialize_seq<V: Visitor<'de>>(self, visitor: V) -> Result<V::Value, E> {
        self.reply(Query::Sequence, visitor)
    }

    fn deserialize_tuple<V: Visitor<'de>>(self, _len: usize, visitor: V) -> Result<V::Value, E> {
        self.reply(Query::Tuple, visitor)
    }

    fn deserialize_tuple_struct<V: Visitor<'de>>(
        self,
        _name: &'static str,
        _len: usize,
        visitor: V,
    ) -> Result<V::Value, E> {
        self.reply(Query::TupleStruct, visitor)
    }

    fn deserialize_map<V: Visitor<'de>>(self, visitor: V) -> Result<V::Value, E> {
        self.reply(Query::Mapping, visitor)
    }

    fn deserialize_struct<V: Visitor<'de>>(
        self,
        _name: &'static str,
        _fields: &'static [&'static str],
        visitor: V,
    ) -> Result<V::Value, E> {
        self.reply(Query::Struct, visitor)
    }

    fn deserialize_enum<V: Visitor<'de>>(
        self,
        _name: &'static str,
        _variants: &'static [&'static str],
        visitor: V,
    ) -> Result<V::Value, E> {
        self.reply(Query::Enum, visitor)
    }

    fn deserialize_identifier<V: Visitor<'de>>(self, visitor: V) -> Result<V::Value, E> {
        self.reply(Query::Identifier, visitor)
    }

    fn deserialize_ignored_any<V: Visitor<'de>>(self, visitor: V) -> Result<V::Value, E> {
        self.reply(Query::IgnoredAny, visitor)
    }
}

struct FieldSeed(TagContentOtherFieldVisitor);

impl<'de> DeserializeSeed<'de> for FieldSeed {
    type Value = TagContentOtherField;

    fn deserialize<D: Deserializer<'de>>(self, deserializer: D) -> Result<Self::Value, D::Error> {
        deserializer.deserialize_str(self)
    }
}

impl<'de> Visitor<'de> for FieldSeed {
    type Value = TagContentOtherField;

    fn expecting(&self, formatter: &mut fmt::Formatter) -> fmt::Result {
        formatter.write_str("a field name")
    }

    fn visit_str<E: Error>(self, field: &str) -> Result<Self::Value, E> {
        Ok(self.0.visit_str(field))
    }
}

struct PayloadSeed<'a, F, K> {
    key: K,
    decode: &'a F,
}

impl<'de, 'a, F, K, T> DeserializeSeed<'de> for PayloadSeed<'a, F, K>
where
    F: Fn(K, &mut dyn erased_serde::Deserializer) -> Result<T, erased_serde::Error>,
{
    type Value = T;

    fn deserialize<D: Deserializer<'de>>(self, deserializer: D) -> Result<T, D::Error> {
        (self.decode)(self.key, &mut <dyn erased_serde::Deserializer>::erase(deserializer))
            .map_err(D::Error::custom)
    }
}

struct EnvelopeVisitor<F, K, T> {
    decode: F,
    names: TagContentOtherFieldVisitor,
    result: PhantomData<fn(K) -> T>,
}

impl<'de, F, K, T> Visitor<'de> for EnvelopeVisitor<F, K, T>
where
    F: Fn(K, &mut dyn erased_serde::Deserializer) -> Result<T, erased_serde::Error>,
    K: Deserialize<'de>,
{
    type Value = T;

    fn expecting(&self, formatter: &mut fmt::Formatter) -> fmt::Result {
        formatter.write_str("adjacently tagged enum")
    }

    fn visit_map<A: MapAccess<'de>>(self, mut map: A) -> Result<T, A::Error> {
        let mut machine = Machine::<K, Value, T>::new(self.names);
        let mut action = Action::NextField;
        loop {
            let event = match action {
                Action::NextField => match map.next_key_seed(FieldSeed(self.names))? {
                    Some(class) => Event::Field(class),
                    None => Event::End,
                },
                Action::SkipValue => {
                    map.next_value::<IgnoredAny>()?;
                    Event::Skipped
                }
                Action::ReadKey => Event::Key(map.next_value()?),
                Action::BufferContent => Event::Buffered(map.next_value::<Value>()?),
                Action::Decode { key, source } => Event::Decoded(match source {
                    Source::Direct => map.next_value_seed(PayloadSeed { key, decode: &self.decode })?,
                    Source::Replay(content) => {
                        let replay = ValueDeserializer::<A::Error>::new(content);
                        (self.decode)(key, &mut <dyn erased_serde::Deserializer>::erase(replay))
                            .map_err(A::Error::custom)?
                    }
                    Source::Absent => {
                        let stub = MissingField::<A::Error>::new(self.names.content);
                        (self.decode)(key, &mut <dyn erased_serde::Deserializer>::erase(stub))
                            .map_err(A::Error::custom)?
                    }
                }),
                Action::Finish(value) => return Ok(value),
                Action::Fail(e) => return Err(into_serde_error(e)),
            };
            let (next, then) = machine.step(event);
            machine = next;
            action = then;
        }
    }

    fn visit_seq<A: SeqAccess<'de>>(self, mut seq: A) -> Result<T, A::Error> {
        let key = expect_element::<K, K>(0, seq.next_element()?).map_err(into_serde_error)?;
        let decoded = seq.next_element_seed(PayloadSeed { key, decode: &self.decode })?;
        expect_element::<K, T>(1, decoded).map_err(into_serde_error)
    }
}

fn deserialize_by_key<'de, D, K, V, F>(
    record_name: &'static str,
    field_names: &'static [&'static str; 2],
    f: F,
    deserializer: D,
) -> Result<V, D::Error>
where
    D: Deserializer<'de>,
    K: Deserialize<'de>,
    F: Fn(K, &mut dyn erased_serde::Deserializer) -> Result<V, erased_serde::Error>,
{
    deserializer.deserialize_struct(
        record_name,
        field_names,
        EnvelopeVisitor {
            decode: f,
            names: TagContentOtherFieldVisitor { tag: field_names[0], content: field_names[1] },
            result: PhantomData,
        },
    )
}

fn deserialize_with_map<'de, D, K, V>(
    map: &DeserializationMap<K, DeserializationFn<V>>,
    deserializer: D,
) -> Result<V, D::Error>
where
    D: Deserializer<'de>,
    K: Deserialize<'de> + Eq + Hash,
{
    deserialize_by_key(
        map.record_name(),
        map.field_names(),
        |key: K, erased: &mut dyn erased_serde::Deserializer| match map.lookup_or_fail(key) {
            Ok(decode) => decode(erased),
            Err(_) => Err(unknown_key()),
        },
        deserializer,
    )
}

struct ErasedPayload<'a, V: ?Sized>(&'a V);

impl<'a, V: ?Sized + erased_serde::Serialize> Serialize for ErasedPayload<'a, V> {
    fn serialize<S: Serializer>(&self, serializer: S) -> Result<S::Ok, S::Error> {
        erased_serde::serialize(self.0, serializer)
    }
}

fn write_envelope<'a, S, K, V>(
    envelope: Envelope<K, ErasedSerdeSerializeWrapper<'a, V>>,
    serializer: S,
) -> Result<S::Ok, S::Error>
where
    S: Serializer,
    K: Serialize,
    V: ?Sized + erased_serde::Serialize,
{
    let mut state = serializer.serialize_struct(envelope.record_name, envelope.len)?;
    state.serialize_field(envelope.tag_name, &envelope.key)?;
    state.serialize_field(envelope.content_name, &ErasedPayload(envelope.payload.0))?;
    state.end()
}

/// Reads every field of a record into the library's own form: the tag as a
/// key, the content buffered, anything else dropped.
struct FieldCollector(TagContentOtherFieldVisitor);

impl<'de> Visitor<'de> for FieldCollector {
    type Value = Vec<Field<String, Value>>;

    fn expecting(&self, formatter: &mut fmt::Formatter) -> fmt::Result {
        formatter.write_str("a record")
    }

    fn visit_map<A: MapAccess<'de>>(self, mut map: A) -> Result<Self::Value, A::Error> {
        let mut fields = Vec::new();
        while let Some(class) = map.next_key_seed(FieldSeed(self.0))? {
            fields.push(match class {
                TagContentOtherField::Tag => Field::Tag(map.next_value::<String>()?),
                TagContentOtherField::Content => Field::Content(map.next_value::<Value>()?),
                TagContentOtherField::Other => {
                    map.next_value::<IgnoredAny>()?;
                    Field::Other
                }
            });
        }
        Ok(fields)
    }
}

fn collect(json: &str) -> Vec<Field<String, Value>> {
    let names = TagContentOtherFieldVisitor { tag: "id", content: "data" };
    let mut deserializer = serde_json::Deserializer::from_str(json);
    (&mut deserializer).deserialize_map(FieldCollector(names)).unwrap()
}

fn invoke(
    decode: &DeserializationFn<Box<dyn TestTrait>>,
    payload: Option<ValueDeserializer<erased_serde::Error>>,
) -> Result<Box<dyn TestTrait>, erased_serde::Error> {
    match payload {
        Some(replay) => decode(&mut <dyn erased_serde::Deserializer>::erase(replay)),
        None => {
            let stub = MissingField::<erased_serde::Error>::new("data");
            decode(&mut <dyn erased_serde::Deserializer>::erase(stub))
        }
    }
}

fn boxed<U>() -> DeserializationFn<Box<dyn TestTrait>>
where
    U: for<'de> Deserialize<'de> + TestTrait + 'static,
{
    Box::new(|deserializer| {
        erased_serde::deserialize::<U>(deserializer).map(|v| Box::new(v) as Box<dyn TestTrait>)
    })
}

fn registry() -> Registry {
    let mut map = Registry::new("Box<dyn TestTrait>", &["id", "data"]);
    map.insert_fn("A".to_string(), boxed::<TestStructA>());
    map.insert_fn("B".to_string(), boxed::<TestEnumB>());
    map.insert_fn("C".to_string(), boxed::<TestUnitC>());
    map
}

fn decode(map: &Registry, json: &str) -> Result<Box<dyn TestTrait>, serde_json::Error> {
    let mut deserializer = serde_json::Deserializer::from_str(json);
    deserialize_with_map(map, &mut deserializer)
}

fn failure(map: &Registry, json: &str) -> String {
    match decode(map, json) {
        Ok(_) => panic!("decoded a record that should fail"),
        Err(e) => e.to_string(),
    }
}

fn buffered(map: &Registry, json: &str) -> Result<Box<dyn TestTrait>, DecodeError<String>> {
    map.deserialize_buffered(collect(json), invoke)
}

fn buffered_failure(map: &Registry, json: &str) -> DecodeError<String> {
    match buffered(map, json) {
        Ok(_) => panic!("decoded a record that should fail"),
        Err(e) => e,
    }
}

fn written(value: &Box<dyn TestTrait>) -> String {
    let map = SerializationMap::<&'static str, dyn TestTrait, _>::new(
        "Box<dyn TestTrait>",
        &["id", "data"],
        |t| t.key(),
    );
    let mut serializer = serde_json::Serializer::new(Vec::new());
    write_envelope(map.serialize_with_key(&**value), &mut serializer).unwrap();
    String::from_utf8(serializer.into_inner()).unwrap()
}


#[test]
fn deserialize_by_key_returns_correct_value() {
    let json1 = r#"{"id":"A","data":{"name":"chuck norris"}}"#;
    let json2 = r#"{"id":"B","data":"Pizza"}"#;
    let json3 = r#"{"id":"C","data":null}"#;

    let mut map = DeserializationMap::<String, DeserializationFn<Box<dyn TestTrait>>>::new(
        "Box<dyn TestTrait>",
        &["id", "data"],
    );

    map.insert_fn("A".to_string(), boxed::<TestStructA>());
    map.insert_fn("B".to_string(), boxed::<TestEnumB>());
    map.insert_fn("C".to_string(), boxed::<TestUnitC>());

    let mut deserializer = serde_json::Deserializer::from_str(json1);
    let result = deserialize_with_map(&map, &mut deserializer).unwrap();
    assert_eq!(result.name(), "chuck norris");

    let mut deserializer = serde_json::Deserializer::from_str(json2);
    let result = deserialize_with_map(&map, &mut deserializer).unwrap();
    assert_eq!(result.name(), "pizza");

    let mut deserializer = serde_json::Deserializer::from_str(json3);
    let result = deserialize_with_map(&map, &mut deserializer).unwrap();
    assert_eq!(result.name(), "just a c");
}

#[test]
fn deserialize_by_key_returns_error_if_required_data_is_missing() {
    let json1 = r#"{"id":"A"}"#;
    let json2 = r#"{"id":"B"}"#;
    let json3 = r#"{"id":"C"}"#;

    let mut map = DeserializationMap::<String, DeserializationFn<Box<dyn TestTrait>>>::new(
        "Box<dyn TestTrait>",
        &["id", "data"],
    );

    map.insert_fn("A".to_string(), boxed::<TestStructA>());
    map.insert_fn("B".to_string(), boxed::<TestEnumB>());
    map.insert_fn("C".to_string(), boxed::<TestUnitC>());

    let mut deserializer = serde_json::Deserializer::from_str(json1);
    let result = deserialize_with_map(&map, &mut deserializer);
    assert!(result.is_err());

    let mut deserializer = serde_json::Deserializer::from_str(json2);
    let result = deserialize_with_map(&map, &mut deserializer);
    assert!(result.is_err());

    let mut deserializer = serde_json::Deserializer::from_str(json3);
    let result = deserialize_with_map(&map, &mut deserializer).unwrap();
    assert_eq!(result.name(), "just a c");
}

#[test]
fn deserialize_by_key_returns_error_on_unknown_key_type() {
    let json = r#"{"id":"D","data":5.02}"#;

    let mut map = DeserializationMap::<String, DeserializationFn<Box<dyn TestTrait>>>::new(
        "Box<dyn TestTrait>",
        &["id", "data"],
    );

    map.insert_fn("A".to_string(), boxed::<TestStructA>());
    map.insert_fn("B".to_string(), boxed::<TestEnumB>());
    map.insert_fn("C".to_string(), boxed::<TestUnitC>());

    let mut deserializer = serde_json::Deserializer::from_str(json);
    let result = deserialize_with_map(&map, &mut deserializer);
    assert!(result.is_err());
}

#[test]
fn seralize_with_key_creates_correct_output() {
    let value1 = Box::new(TestStructA {
        name: "chuck norris".to_string(),
    }) as Box<dyn TestTrait>;
    let value2 = Box::new(TestEnumB::Pizza) as Box<dyn TestTrait>;
    let value3 = Box::new(TestUnitC) as Box<dyn TestTrait>;

    let map = SerializationMap::<&'static str, dyn TestTrait, _>::new(
        "Box<dyn TestTrait>",
        &["id", "data"],
        |t| t.key(),
    );

    let mut serializer = serde_json::Serializer::new(Vec::new());
    write_envelope(map.serialize_with_key(value1.as_ref()), &mut serializer).unwrap();
    assert_eq!(
        serializer.into_inner().as_slice(),
        br#"{"id":"A","data":{"name":"chuck norris"}}"#
    );

    let mut serializer = serde_json::Serializer::new(Vec::new());
    write_envelope(map.serialize_with_key(value2.as_ref()), &mut serializer).unwrap();
    assert_eq!(
        serializer.into_inner().as_slice(),
        br#"{"id":"B","data":"Pizza"}"#
    );

    let mut serializer = serde_json::Serializer::new(Vec::new());
    write_envelope(map.serialize_with_key(value3.as_ref()), &mut serializer).unwrap();
    assert_eq!(
        serializer.into_inner().as_slice(),
        br#"{"id":"C","data":null}"#
    );
}

#[test]
fn ergonomics() {
    let map = registry();
    let value = Box::new(TestEnumB::Broccoli) as Box<dyn TestTrait>;

    let mut serializer = serde_json::Serializer::new(Vec::new());
    let envelope = desfn::encode::serialize_with_key(
        "Box<dyn TestTrait>",
        &["id", "data"],
        value.key(),
        value.as_ref(),
    );
    write_envelope(envelope, &mut serializer).unwrap();
    let json = String::from_utf8(serializer.into_inner()).unwrap();
    assert_eq!(json, r#"{"id":"B","data":"Broccoli"}"#);

    let mut deserializer = serde_json::Deserializer::from_str(&json);
    let back: Box<dyn TestTrait> = deserialize_by_key(
        "Box<dyn TestTrait>",
        &["id", "data"],
        |key: String, deserializer: &mut dyn erased_serde::Deserializer| {
            map.get(&key).ok_or_else(unknown_key).and_then(|f| f(deserializer))
        },
        &mut deserializer,
    )
    .unwrap();
    assert_eq!(back.name(), "yuck");
}

#[test]
fn unknown_key_names_itself() {
    assert_eq!(unknown_key().to_string(), "unknown deserialization key");
}

#[test]
fn unknown_key_is_reported_on_both_paths() {
    let map = registry();
    assert!(failure(&map, r#"{"id":"D","data":5.02}"#).contains("unknown deserialization key"));
    assert!(failure(&map, r#"{"data":5.02,"id":"D"}"#).contains("unknown deserialization key"));
    assert!(failure(&map, r#"["D",5.02]"#).contains("unknown deserialization key"));
    assert_eq!(
        buffered_failure(&map, r#"{"id":"D","data":5.02}"#),
        DecodeError::UnknownKey("D".to_string())
    );
    assert_eq!(
        buffered_failure(&map, r#"{"data":5.02,"id":"D"}"#),
        DecodeError::UnknownKey("D".to_string())
    );
}

#[test]
fn unknown_key_waits_for_the_payload() {
    let map = registry();
    assert!(failure(&map, r#"{"id":"D","id":"A"}"#).contains("duplicate field `id`"));
    assert_eq!(
        buffered_failure(&map, r#"{"id":"D","id":"A"}"#),
        DecodeError::DuplicateField("id")
    );
}

#[test]
fn content_before_tag_decodes_alike() {
    let map = registry();
    let a = decode(&map, r#"{"data":{"name":"chuck norris"},"id":"A"}"#).unwrap();
    assert_eq!(a.name(), "chuck norris");
    let b = decode(&map, r#"{"data":"Broccoli","id":"B"}"#).unwrap();
    assert_eq!(b.name(), "yuck");
    let c = decode(&map, r#"{"data":null,"id":"C"}"#).unwrap();
    assert_eq!(c.name(), "just a c");
    let a = buffered(&map, r#"{"data":{"name":"chuck norris"},"id":"A"}"#).unwrap();
    assert_eq!(a.name(), "chuck norris");
    let a = buffered(&map, r#"{"id":"A","data":{"name":"chuck norris"}}"#).unwrap();
    assert_eq!(a.name(), "chuck norris");
}

#[test]
fn other_fields_are_ignored() {
    let map = registry();
    let json = r#"{"extra":1,"id":"A","between":[1,2],"data":{"name":"chuck norris"},"extra2":{"x":2}}"#;
    assert_eq!(decode(&map, json).unwrap().name(), "chuck norris");
    assert_eq!(buffered(&map, json).unwrap().name(), "chuck norris");
    let json = r#"{"extra":1,"data":"Pizza","between":null,"id":"B","extra2":2}"#;
    assert_eq!(decode(&map, json).unwrap().name(), "pizza");
    assert_eq!(buffered(&map, json).unwrap().name(), "pizza");
}

#[test]
fn missing_content_is_left_to_the_decode_function() {
    let map = registry();
    assert_eq!(decode(&map, r#"{"id":"C"}"#).unwrap().name(), "just a c");
    assert_eq!(buffered(&map, r#"{"id":"C"}"#).unwrap().name(), "just a c");
    assert!(failure(&map, r#"{"id":"A"}"#).contains("missing field `data`"));
    assert!(failure(&map, r#"{"id":"B","other":1}"#).contains("missing field `data`"));
    assert_eq!(
        buffered_failure(&map, r#"{"id":"A"}"#),
        DecodeError::PayloadDecodeFailed("missing field `data`".to_string())
    );
}

#[test]
fn missing_tag_is_an_error() {
    let map = registry();
    assert!(failure(&map, r#"{}"#).contains("missing field `id`"));
    assert!(failure(&map, r#"{"data":"Pizza"}"#).contains("missing field `id`"));
    assert!(failure(&map, r#"{"x":1}"#).contains("missing field `id`"));
    assert_eq!(buffered_failure(&map, r#"{}"#), DecodeError::MissingField("id"));
    assert_eq!(
        buffered_failure(&map, r#"{"data":"Pizza","x":1}"#),
        DecodeError::MissingField("id")
    );
}

#[test]
fn duplicate_fields_are_errors_in_either_order() {
    let map = registry();
    assert!(failure(&map, r#"{"id":"B","id":"B","data":"Pizza"}"#).contains("duplicate field `id`"));
    assert!(failure(&map, r#"{"id":"B","data":"Pizza","id":"B"}"#).contains("duplicate field `id`"));
    assert!(failure(&map, r#"{"id":"B","data":"Pizza","data":"Pizza"}"#)
        .contains("duplicate field `data`"));
    assert!(failure(&map, r#"{"data":"Pizza","data":"Pizza","id":"B"}"#)
        .contains("duplicate field `data`"));
    assert!(failure(&map, r#"{"data":"Pizza","id":"B","data":"Pizza"}"#)
        .contains("duplicate field `data`"));
    assert!(failure(&map, r#"{"data":"Pizza","id":"B","x":0,"id":"B"}"#)
        .contains("duplicate field `id`"));
    assert_eq!(
        buffered_failure(&map, r#"{"data":"Pizza","id":"B","x":0,"id":"B"}"#),
        DecodeError::DuplicateField("id")
    );
    assert_eq!(
        buffered_failure(&map, r#"{"id":"B","data":"Pizza","data":"Pizza"}"#),
        DecodeError::DuplicateField("data")
    );
}

#[test]
fn positional_records_decode_like_named_ones() {
    let map = registry();
    assert_eq!(decode(&map, r#"["A",{"name":"chuck norris"}]"#).unwrap().name(), "chuck norris");
    assert_eq!(decode(&map, r#"["B","Pizza"]"#).unwrap().name(), "pizza");
    assert_eq!(decode(&map, r#"["C",null]"#).unwrap().name(), "just a c");
    assert!(failure(&map, r#"["A"]"#).contains("invalid length 1"));
    assert!(failure(&map, r#"[]"#).contains("invalid length 0"));
}

#[test]
fn a_failing_payload_reports_its_own_message() {
    let map = registry();
    assert!(failure(&map, r#"{"id":"B","data":"Salad"}"#).contains("unknown variant `Salad`"));
    match buffered_failure(&map, r#"{"id":"B","data":"Salad"}"#) {
        DecodeError::PayloadDecodeFailed(message) => {
            assert!(message.contains("unknown variant `Salad`"))
        }
        other => panic!("{:?}", other),
    }
    match buffered_failure(&map, r#"{"id":"B","data":"Salad","id":"B"}"#) {
        DecodeError::PayloadDecodeFailed(message) => {
            assert!(message.contains("unknown variant `Salad`"))
        }
        other => panic!("{:?}", other),
    }
}

#[test]
fn written_envelopes_are_read_back() {
    let map = registry();
    let a = Box::new(TestStructA { name: "chuck norris".to_string() }) as Box<dyn TestTrait>;
    let b = Box::new(TestEnumB::Pizza) as Box<dyn TestTrait>;
    let c = Box::new(TestUnitC) as Box<dyn TestTrait>;
    for value in [a, b, c] {
        let json = written(&value);
        let back = decode(&map, &json).unwrap();
        assert_eq!(back.key(), value.key());
        assert_eq!(back.name(), value.name());
        let back = buffered(&map, &json).unwrap();
        assert_eq!(back.key(), value.key());
        assert_eq!(back.name(), value.name());
    }
}

#[test]
fn unit_functions_take_no_payload() {
    let mut map = Registry::new("Box<dyn TestTrait>", &["id", "data"]);
    let produce = || -> Result<Box<dyn TestTrait>, erased_serde::Error> { Ok(Box::new(TestUnitC)) };
    map.insert_fn(
        "C".to_string(),
        Box::new(move |deserializer| after_unit(<()>::deserialize(deserializer), &produce)),
    );
    assert_eq!(decode(&map, r#"{"id":"C"}"#).unwrap().name(), "just a c");
    assert_eq!(decode(&map, r#"{"id":"C","data":null}"#).unwrap().name(), "just a c");
    assert_eq!(decode(&map, r#"{"data":null,"id":"C"}"#).unwrap().name(), "just a c");
    assert_eq!(buffered(&map, r#"{"id":"C"}"#).unwrap().name(), "just a c");
    assert!(failure(&map, r#"{"id":"C","data":5}"#).contains("invalid type"));
    assert!(failure(&map, r#"{"data":"x","id":"C"}"#).contains("invalid type"));
}

#[test]
fn after_unit_keeps_a_failure() {
    let failed: Result<(), erased_serde::Error> =
        Err(<erased_serde::Error as Error>::custom("no unit"));
    let r: Result<u8, erased_serde::Error> = after_unit(failed, || Ok(1u8));
    assert_eq!(r.unwrap_err().to_string(), "no unit");
    let r: Result<u8, erased_serde::Error> = after_unit(Ok(()), || Ok(1u8));
    assert_eq!(r.unwrap(), 1);
}
