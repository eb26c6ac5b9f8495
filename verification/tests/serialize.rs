use turtl_core::serialize::{field_keys, field_sources, fix_type};
use turtl_core::strings::str_eq;

use serde::de::{Deserialize, Deserializer, MapAccess, Visitor};
use serde::ser::{Serialize, SerializeStruct, Serializer};
use serde_json::Value;

/// Our little crapper. He sometimes craps his pants.
#[derive(Debug)]
struct LittleCrapper {
    active: bool,
    name: String,
    type_: String,
    location: String,
}

impl LittleCrapper {
    fn new(name: String, location: String) -> LittleCrapper {
        LittleCrapper {
            name: name,
            type_: String::from("sneak"),
            location: location,
            active: true,
        }
    }
}

const CRAPPER_FIELDS: [&str; 3] = ["name", "type_", "location"];

impl Serialize for LittleCrapper {
    fn serialize<S: Serializer>(&self, serializer: S) -> Result<S::Ok, S::Error> {
        let keys = field_keys(&CRAPPER_FIELDS.to_vec());
        let mut struc = serializer.serialize_struct("LittleCrapper", keys.len())?;
        struc.serialize_field(keys[0], &self.name)?;
        struc.serialize_field(keys[1], &self.type_)?;
        struc.serialize_field(keys[2], &self.location)?;
        struc.end()
    }
}

/// The entries of a JSON object, in the order they were read.
struct Entries(Vec<(String, Value)>);

impl<'de> Deserialize<'de> for Entries {
    fn deserialize<D: Deserializer<'de>>(deserializer: D) -> Result<Entries, D::Error> {
        struct Visit0r;
        impl<'de> Visitor<'de> for Visit0r {
            type Value = Entries;
            fn expecting(&self, formatter: &mut std::fmt::Formatter) -> std::fmt::Result {
                formatter.write_str("an object")
            }
            fn visit_map<V: MapAccess<'de>>(self, mut visitor: V) -> Result<Entries, V::Error> {
                let mut entries = Vec::new();
                while let Some(key) = visitor.next_key::<String>()? {
                    let value: Value = visitor.next_value()?;
                    entries.push((key, value));
                }
                Ok(Entries(entries))
            }
        }
        deserializer.deserialize_map(Visit0r)
    }
}

fn string_field<E: serde::de::Error>(entries: &Entries, source: Option<usize>) -> Result<String, E> {
    match source {
        Some(k) => serde_json::from_value(entries.0[k].1.clone()).map_err(E::custom),
        None => Ok(Default::default()),
    }
}

impl<'de> Deserialize<'de> for LittleCrapper {
    fn deserialize<D: Deserializer<'de>>(deserializer: D) -> Result<LittleCrapper, D::Error> {
        let entries = Entries::deserialize(deserializer)?;
        let keys: Vec<&str> = entries.0.iter().map(|(k, _)| k.as_str()).collect();
        let sources = field_sources(&CRAPPER_FIELDS.to_vec(), &keys);
        Ok(LittleCrapper {
            name: string_field(&entries, sources[0])?,
            type_: string_field(&entries, sources[1])?,
            location: string_field(&entries, sources[2])?,
            active: Default::default(),
        })
    }
}

struct CrapTree {
    name: String,
    crappers: Vec<LittleCrapper>,
}

impl Serialize for CrapTree {
    fn serialize<S: Serializer>(&self, serializer: S) -> Result<S::Ok, S::Error> {
        let keys = field_keys(&vec!["name", "crappers"]);
        let mut struc = serializer.serialize_struct("CrapTree", keys.len())?;
        struc.serialize_field(keys[0], &self.name)?;
        struc.serialize_field(keys[1], &self.crappers)?;
        struc.end()
    }
}

#[test]
fn fixes_types() {
    assert_eq!(fix_type("type"), "type_");
    assert_eq!(fix_type("type_"), "type");
    assert_eq!(fix_type("tpye"), "tpye");
    assert_eq!(fix_type("stop ignoring me"), "stop ignoring me");
    assert_eq!(fix_type("type"), "type_");

    match "type" {
        x if x == fix_type("type_") => {}
        _ => panic!("bad `type` match"),
    }
}

#[test]
fn can_serialize() {
    let crapper = LittleCrapper { active: false, name: String::from("barry"), type_: String::from("speedy"), location: String::from("my pants") };
    let json_str = serde_json::to_string(&crapper).unwrap();
    assert_eq!(json_str, r#"{"name":"barry","type":"speedy","location":"my pants"}"#);
}

#[test]
fn can_deserialize() {
    let crapper: LittleCrapper = serde_json::from_str(&String::from(r#"{"name":"omg","location":"city hall"}"#)).unwrap();
    assert_eq!(crapper.name, "omg");
    assert_eq!(crapper.type_, "");
    assert_eq!(crapper.location, "city hall");
    assert_eq!(crapper.active, false);
}

#[test]
fn can_recurse() {
    let tree = CrapTree {
        name: String::from("tree of crappy wisdom"),
        crappers: vec![
            LittleCrapper::new(String::from("harold"), String::from("here")),
            LittleCrapper::new(String::from("sandra"), String::from("the bed")),
        ],
    };
    let json_str = serde_json::to_string(&tree).unwrap();
    assert_eq!(json_str, r#"{"name":"tree of crappy wisdom","crappers":[{"name":"harold","type":"sneak","location":"here"},{"name":"sandra","type":"sneak","location":"the bed"}]}"#);
}

#[test]
fn fixes_mod_both_ways() {
    assert_eq!(fix_type("mod"), "mod_");
    assert_eq!(fix_type("mod_"), "mod");
    assert_eq!(fix_type(""), "");
    assert_eq!(fix_type("types"), "types");
    assert_eq!(fix_type("Type"), "Type");
}

#[test]
fn fix_type_undoes_itself() {
    for name in ["type", "type_", "mod", "mod_", "name", "", "mode"] {
        assert_eq!(fix_type(fix_type(name)), name);
    }
}

#[test]
fn field_keys_follow_fields() {
    let keys = field_keys(&vec!["id", "type_", "mod_", "body"]);
    assert_eq!(keys, vec!["id", "type", "mod", "body"]);
    assert_eq!(field_keys(&vec![]), Vec::<&str>::new());
}

#[test]
fn field_sources_take_last_matching_key() {
    let fields = vec!["name", "type_", "location"];
    let keys = vec!["type", "extra", "name", "type"];
    assert_eq!(field_sources(&fields, &keys), vec![Some(2), Some(3), None]);
}

#[test]
fn field_sources_skip_unknown_and_rust_spelling() {
    let fields = vec!["type_", "mod_"];
    let keys = vec!["type_", "mod_", "other"];
    assert_eq!(field_sources(&fields, &keys), vec![None, None]);
    assert_eq!(field_sources(&fields, &vec!["mod", "type"]), vec![Some(1), Some(0)]);
}

#[test]
fn keys_round_trip_through_sources() {
    let fields = vec!["name", "type_", "mod", "location"];
    let keys = field_keys(&fields);
    assert_eq!(field_sources(&fields, &keys), vec![Some(0), Some(1), Some(2), Some(3)]);
}

#[test]
fn deserialize_later_key_wins() {
    let crapper: LittleCrapper = serde_json::from_str(r#"{"name":"a","type":"x","name":"b","bogus":"z"}"#).unwrap();
    assert_eq!(crapper.name, "b");
    assert_eq!(crapper.type_, "x");
    assert_eq!(crapper.location, "");
}

#[test]
fn str_eq_compares_characters() {
    assert!(str_eq("abc", "abc"));
    assert!(!str_eq("abc", "abd"));
    assert!(!str_eq("abc", "ab"));
    assert!(str_eq("", ""));
    assert!(str_eq("ÈªëÈ£é", "ÈªëÈ£é"));
}

#[test]
fn deserialize_wrong_type_is_an_error() {
    let res: Result<LittleCrapper, _> = serde_json::from_str(r#"{"name":7}"#);
    assert!(res.is_err());
}
