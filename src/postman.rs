//! The Postman collection format (v2.1): export of a collection and import of
//! its info, folders and variables, over a plain model of JSON documents.

use vstd::prelude::*;
use vstd::string::*;

use crate::base::clone_opt_string;
use crate::collection::{
    postman_type_name, postman_type_named, Collection, Folder, Variable, VariableType,
};

verus! {

broadcast use vstd::std_specs::vec::group_vec_axioms;

/// A JSON document. Object members keep their order; keys are distinct.
#[derive(Debug)]
pub enum Json {
    Null,
    Bool(bool),
    /// A number, as its JSON text.
    Number(String),
    Str(String),
    Array(Vec<Json>),
    Object(Vec<(String, Json)>),
}

/// The value of the first member named `key`.
pub open spec fn member(fields: Seq<(String, Json)>, key: Seq<char>) -> Option<Json>
    decreases fields.len(),
{
    if fields.len() == 0 {
        None
    } else if fields[0].0@ == key {
        Some(fields[0].1)
    } else {
        member(fields.drop_first(), key)
    }
}

/// The member `key` of an object; `None` for anything else.
pub open spec fn get(j: Json, key: Seq<char>) -> Option<Json> {
    match j {
        Json::Object(fields) => member(fields@, key),
        _ => None,
    }
}

/// The text of a JSON string.
pub open spec fn text_of(j: Option<Json>) -> Option<Seq<char>> {
    match j {
        Some(Json::Str(s)) => Some(s@),
        _ => None,
    }
}

/// The elements of a JSON array; `None` for anything else.
pub open spec fn elements_of(j: Option<Json>) -> Option<Seq<Json>> {
    match j {
        Some(Json::Array(items)) => Some(items@),
        _ => None,
    }
}

/// The text of an optional string.
pub open spec fn opt_text(s: Option<String>) -> Option<Seq<char>> {
    match s {
        Some(t) => Some(t@),
        None => None,
    }
}

fn member_of<'a>(fields: &'a Vec<(String, Json)>, key: &str) -> (r: Option<&'a Json>)
    ensures
        match member(fields@, key@) {
            Some(v) => r matches Some(x) && *x == v,
            None => r is None,
        },
{
    let k = String::from_str(key);
    let mut i: usize = 0;
    assert(fields@.skip(0) =~= fields@);
    while i < fields.len()
        invariant
            i <= fields@.len(),
            k@ == key@,
            member(fields@, key@) == member(fields@.skip(i as int), key@),
        decreases fields@.len() - i,
    {
        let ghost rest = fields@.skip(i as int);
        assert(rest[0] == fields@[i as int]);
        assert(rest.drop_first() =~= fields@.skip(i + 1));
        if fields[i].0 == k {
            return Some(&fields[i].1);
        }
        i = i + 1;
    }
    None
}

fn get_member<'a>(j: &'a Json, key: &str) -> (r: Option<&'a Json>)
    ensures
        match get(*j, key@) {
            Some(v) => r matches Some(x) && *x == v,
            None => r is None,
        },
{
    match j {
        Json::Object(fields) => member_of(fields, key),
        _ => None,
    }
}

fn text_member(j: &Json, key: &str) -> (r: Option<String>)
    ensures
        opt_text(r) == text_of(get(*j, key@)),
{
    match get_member(j, key) {
        Some(Json::Str(s)) => Some(s.clone()),
        _ => None,
    }
}

/// Whether a Postman variable has a key and a value, both strings.
pub open spec fn is_postman_variable(j: Json) -> bool {
    text_of(get(j, "key"@)) is Some && text_of(get(j, "value"@)) is Some
}

/// `v` is what the Postman variable `j` reads as: its key and value; its type,
/// a string when absent or unknown; enabled unless `enabled` is false; its
/// hint if it has one; no initial value.
pub open spec fn reads_as_variable(v: Variable, j: Json) -> bool {
    &&& Some(v.key@) == text_of(get(j, "key"@))
    &&& Some(v.value@) == text_of(get(j, "value"@))
    &&& v.variable_type == match text_of(get(j, "type"@)) {
        Some(t) => match postman_type_named(t) {
            Some(vt) => vt,
            None => VariableType::String,
        },
        None => VariableType::String,
    }
    &&& v.enabled == match get(j, "enabled"@) {
        Some(Json::Bool(b)) => b,
        _ => true,
    }
    &&& opt_text(v.hint) == text_of(get(j, "hint"@))
    &&& v.initial_value is None
}

impl Variable {
    /// Reads a Postman variable; fails when the key or the value is missing.
    pub fn from_postman(j: &Json) -> (r: Result<Variable, String>)
        ensures
            r is Ok <==> is_postman_variable(*j),
            r matches Ok(v) ==> reads_as_variable(v, *j),
    {
        let key = match text_member(j, "key") {
            Some(k) => k,
            None => {
                return Err(String::from_str("Missing variable key"));
            },
        };
        let value = match text_member(j, "value") {
            Some(v) => v,
            None => {
                return Err(String::from_str("Missing variable value"));
            },
        };
        let variable_type = match text_member(j, "type") {
            Some(t) => match VariableType::from_postman_name(t.as_str()) {
                Some(vt) => vt,
                None => VariableType::String,
            },
            None => VariableType::String,
        };
        let enabled = match get_member(j, "enabled") {
            Some(Json::Bool(b)) => *b,
            _ => true,
        };
        Ok(
            Variable {
                key,
                value,
                variable_type,
                enabled,
                hint: text_member(j, "hint"),
                initial_value: None,
            },
        )
    }
}

/// The elements of `items` that read as variables, in order.
pub open spec fn postman_variables(items: Seq<Json>) -> Seq<Json>
    decreases items.len(),
{
    if items.len() == 0 {
        items
    } else if is_postman_variable(items.last()) {
        postman_variables(items.drop_last()).push(items.last())
    } else {
        postman_variables(items.drop_last())
    }
}

/// The elements of `items` that are named, in order: those that read as
/// folders.
pub open spec fn named_items(items: Seq<Json>) -> Seq<Json>
    decreases items.len(),
{
    if items.len() == 0 {
        items
    } else if text_of(get(items.last(), "name"@)) is Some {
        named_items(items.drop_last()).push(items.last())
    } else {
        named_items(items.drop_last())
    }
}

/// The nested items of `items` that are folders: named, with items of
/// their own.
pub open spec fn folder_items(items: Seq<Json>) -> Seq<Json>
    decreases items.len(),
{
    if items.len() == 0 {
        items
    } else if text_of(get(items.last(), "name"@)) is Some && elements_of(
        get(items.last(), "item"@),
    ) is Some {
        folder_items(items.drop_last()).push(items.last())
    } else {
        folder_items(items.drop_last())
    }
}

impl Folder {
    /// Reads a Postman item as a folder, with the nested items that hold items of
    /// their own as sub-folders; `None` when the item has no name.
    pub fn from_postman_item(j: &Json) -> (r: Option<Folder>)
        ensures
            r is Some <==> text_of(get(*j, "name"@)) is Some,
            r matches Some(f) ==> {
                &&& Some(f.name@) == text_of(get(*j, "name"@))
                &&& opt_text(f.description) == text_of(get(*j, "description"@))
                &&& f.requests@.len() == 0
                &&& f.children@.len() == match elements_of(get(*j, "item"@)) {
                    Some(items) => folder_items(items).len(),
                    None => 0,
                }
            },
        decreases *j,
    {
        let name = match text_member(j, "name") {
            Some(n) => n,
            None => {
                return None;
            },
        };
        let mut folder = Folder::new(name);
        folder.description = text_member(j, "description");
        match get_member(j, "item") {
            Some(Json::Array(items)) => {
                let ghost s = items@;
                let mut i: usize = 0;
                while i < items.len()
                    invariant
                        i <= s.len(),
                        s == items@,
                        Some(folder.name@) == text_of(get(*j, "name"@)),
                        opt_text(folder.description) == text_of(get(*j, "description"@)),
                        folder.requests@.len() == 0,
                        folder.children@.len() == folder_items(s.take(i as int)).len(),
                        get(*j, "item"@) == Some(Json::Array(*items)),
                    decreases s.len() - i,
                {
                    proof {
                        assert(s.take(i + 1).drop_last() =~= s.take(i as int));
                        lemma_item_smaller(*j, *items, i as int);
                    }
                    let item = &items[i];
                    let nested = match get_member(item, "item") {
                        Some(Json::Array(_)) => true,
                        _ => false,
                    };
                    if nested {
                        match Folder::from_postman_item(item) {
                            Some(child) => {
                                folder.add_child(child);
                            },
                            None => {},
                        }
                    }
                    i = i + 1;
                }
                assert(s.take(i as int) =~= s);
            },
            _ => {},
        }
        Some(folder)
    }
}

/// The info object of a Postman document, if it has one.
pub open spec fn info_of(value: Json) -> Option<Json> {
    match get(value, "info"@) {
        Some(Json::Object(fields)) => Some(Json::Object(fields)),
        _ => None,
    }
}

/// The elements of the member `key` when it is an array; none otherwise.
pub open spec fn listed(value: Json, key: Seq<char>) -> Seq<Json> {
    match elements_of(get(value, key)) {
        Some(items) => items,
        None => Seq::empty(),
    }
}

impl Collection {
    /// Reads a Postman document. The info object and its name are required;
    /// the description and id are taken when present, each named item becomes
    /// a folder, and each well-formed variable a variable, in order.
    pub fn from_postman(value: &Json) -> (r: Result<Collection, String>)
        ensures
            info_of(*value) is None ==> (r matches Err(m) && m@ == "Missing info object"@),
            (info_of(*value) matches Some(info) && text_of(get(info, "name"@)) is None) ==> (
            r matches Err(m) && m@ == "Missing collection name"@),
            r is Ok <==> (info_of(*value) matches Some(info) && text_of(get(info, "name"@))
                is Some),
            r matches Ok(c) ==> {
                let info = info_of(*value)->Some_0;
                &&& Some(c.name@) == text_of(get(info, "name"@))
                &&& opt_text(c.description) == text_of(get(info, "description"@))
                &&& (text_of(get(info, "_postman_id"@)) matches Some(id) ==> c.info.postboy_id@
                    == id)
                &&& c.folders@.len() == named_items(listed(*value, "item"@)).len()
                &&& c.variables@.len() == postman_variables(listed(*value, "variable"@)).len()
                &&& forall|k: int|
                    0 <= k < c.variables@.len() ==> reads_as_variable(
                        #[trigger] c.variables@[k],
                        postman_variables(listed(*value, "variable"@))[k],
                    )
            },
    {
        let info = match get_member(value, "info") {
            Some(i) => match i {
                Json::Object(_) => i,
                _ => {
                    return Err(String::from_str("Missing info object"));
                },
            },
            None => {
                return Err(String::from_str("Missing info object"));
            },
        };
        let name = match text_member(info, "name") {
            Some(n) => n,
            None => {
                return Err(String::from_str("Missing collection name"));
            },
        };
        let mut collection = Collection::new(name);
        collection.description = text_member(info, "description");
        match text_member(info, "_postman_id") {
            Some(id) => {
                collection.info.postboy_id = id;
            },
            None => {},
        }
        match get_member(value, "item") {
            Some(Json::Array(items)) => {
                let ghost s = items@;
                let mut i: usize = 0;
                while i < items.len()
                    invariant
                        i <= s.len(),
                        s == items@,
                        s == listed(*value, "item"@),
                        Some(collection.name@) == text_of(get(*info, "name"@)),
                        opt_text(collection.description) == text_of(get(*info, "description"@)),
                        text_of(get(*info, "_postman_id"@)) matches Some(id)
                            ==> collection.info.postboy_id@ == id,
                        collection.variables@.len() == 0,
                        collection.folders@.len() == named_items(s.take(i as int)).len(),
                    decreases s.len() - i,
                {
                    proof {
                        assert(s.take(i + 1).drop_last() =~= s.take(i as int));
                    }
                    match Folder::from_postman_item(&items[i]) {
                        Some(folder) => {
                            collection.add_folder(folder);
                        },
                        None => {},
                    }
                    i = i + 1;
                }
                assert(s.take(i as int) =~= s);
            },
            _ => {},
        }
        let ghost folder_count = collection.folders@.len();
        match get_member(value, "variable") {
            Some(Json::Array(vars)) => {
                let ghost s = vars@;
                let mut i: usize = 0;
                while i < vars.len()
                    invariant
                        i <= s.len(),
                        s == vars@,
                        s == listed(*value, "variable"@),
                        Some(collection.name@) == text_of(get(*info, "name"@)),
                        opt_text(collection.description) == text_of(get(*info, "description"@)),
                        text_of(get(*info, "_postman_id"@)) matches Some(id)
                            ==> collection.info.postboy_id@ == id,
                        collection.folders@.len() == folder_count,
                        collection.variables@.len() == postman_variables(s.take(i as int)).len(),
                        forall|k: int|
                            0 <= k < collection.variables@.len() ==> reads_as_variable(
                                #[trigger] collection.variables@[k],
                                postman_variables(s.take(i as int))[k],
                            ),
                    decreases s.len() - i,
                {
                    proof {
                        assert(s.take(i + 1).drop_last() =~= s.take(i as int));
                        assert(s.take(i + 1).last() == s[i as int]);
                    }
                    match Variable::from_postman(&vars[i]) {
                        Ok(v) => {
                            collection.variables.push(v);
                        },
                        Err(_) => {},
                    }
                    i = i + 1;
                }
                assert(s.take(i as int) =~= s);
            },
            _ => {},
        }
        Ok(collection)
    }
}

/// A text member, or `null` when absent.
pub open spec fn opt_json(s: Option<String>) -> Json {
    match s {
        Some(t) => Json::Str(t),
        None => Json::Null,
    }
}

/// The enabled variables of `s`, in order.
pub open spec fn enabled_variables(s: Seq<Variable>) -> Seq<Variable>
    decreases s.len(),
{
    if s.len() == 0 {
        s
    } else if s.last().enabled {
        enabled_variables(s.drop_last()).push(s.last())
    } else {
        enabled_variables(s.drop_last())
    }
}

fn opt_json_of(s: &Option<String>) -> (r: Json)
    ensures
        r == opt_json(*s),
{
    match s {
        Some(t) => Json::Str(t.clone()),
        None => Json::Null,
    }
}

proof fn lemma_distinct_keys()
    ensures
        "name"@ != "description"@,
        "name"@ != "item"@,
        "description"@ != "item"@,
        "name"@ != "schema"@,
        "name"@ != "_postman_id"@,
        "description"@ != "schema"@,
        "description"@ != "_postman_id"@,
        "schema"@ != "_postman_id"@,
        "info"@ != "item"@,
        "info"@ != "variable"@,
        "item"@ != "variable"@,
        "key"@ != "value"@,
        "key"@ != "type"@,
        "value"@ != "type"@,
{
    reveal_strlit("name");
    reveal_strlit("description");
    reveal_strlit("item");
    reveal_strlit("schema");
    reveal_strlit("_postman_id");
    reveal_strlit("info");
    reveal_strlit("variable");
    reveal_strlit("key");
    reveal_strlit("value");
    reveal_strlit("type");
    assert("name"@[0] != "item"@[0]);
    assert("description"@[0] != "schema"@[0]);
    assert("description"@[0] != "_postman_id"@[0]);
    assert("info"@[1] != "item"@[1]);
    assert("value"@.len() != "type"@.len());
    assert("key"@.len() != "type"@.len());
}

/// A Postman variable: key, value and type name.
fn variable_json(v: &Variable) -> (r: Json)
    ensures
        get(r, "key"@) == Some(Json::Str(v.key)),
        get(r, "value"@) == Some(Json::Str(v.value)),
        text_of(get(r, "type"@)) == Some(postman_type_name(v.variable_type)),
{
    let mut fields: Vec<(String, Json)> = Vec::new();
    fields.push((String::from_str("key"), Json::Str(v.key.clone())));
    fields.push((String::from_str("value"), Json::Str(v.value.clone())));
    fields.push(
        (String::from_str("type"), Json::Str(String::from_str(v.variable_type.postman_name()))),
    );
    proof {
        lemma_distinct_keys();
        reveal_with_fuel(member, 4);
        assert(fields@.drop_first()[0] == fields@[1]);
        assert(fields@.drop_first().drop_first()[0] == fields@[2]);
    }
    Json::Object(fields)
}

impl Folder {
    /// The folder as a Postman item: name, description (or `null`), and its
    /// sub-folders as nested items.
    pub fn to_postman(&self) -> (r: Json)
        ensures
            get(r, "name"@) == Some(Json::Str(self.name)),
            get(r, "description"@) == Some(opt_json(self.description)),
            elements_of(get(r, "item"@)) matches Some(items) && items.len()
                == self.children@.len(),
        decreases *self,
    {
        let mut items: Vec<Json> = Vec::new();
        let mut i: usize = 0;
        while i < self.children.len()
            invariant
                i <= self.children@.len(),
                items@.len() == i,
            decreases self.children@.len() - i,
        {
            proof {
                assert(decreases_to!(*self => self.children@[i as int]));
            }
            items.push(self.children[i].to_postman());
            i = i + 1;
        }
        let ghost n = items@.len();
        let mut fields: Vec<(String, Json)> = Vec::new();
        fields.push((String::from_str("name"), Json::Str(self.name.clone())));
        fields.push((String::from_str("description"), opt_json_of(&self.description)));
        fields.push((String::from_str("item"), Json::Array(items)));
        proof {
            lemma_distinct_keys();
            reveal_with_fuel(member, 4);
            assert(fields@.drop_first()[0] == fields@[1]);
            assert(fields@.drop_first().drop_first()[0] == fields@[2]);
        }
        Json::Object(fields)
    }
}

impl Collection {
    /// The collection as a Postman document: its info (name, description or
    /// `null`, schema, id), its folders as items, and its enabled variables.
    pub fn to_postman(&self) -> (r: Json)
        ensures
            info_of(r) matches Some(info) && {
                &&& get(info, "name"@) == Some(Json::Str(self.name))
                &&& get(info, "description"@) == Some(opt_json(self.description))
                &&& get(info, "schema"@) == Some(Json::Str(self.info.schema))
                &&& get(info, "_postman_id"@) == Some(Json::Str(self.info.postboy_id))
            },
            elements_of(get(r, "item"@)) matches Some(items) && items.len()
                == self.folders@.len(),
            elements_of(get(r, "variable"@)) matches Some(vars) && {
                let ev = enabled_variables(self.variables@);
                &&& vars.len() == ev.len()
                &&& forall|k: int|
                    0 <= k < vars.len() ==> {
                        &&& get(#[trigger] vars[k], "key"@) == Some(Json::Str(ev[k].key))
                        &&& get(vars[k], "value"@) == Some(Json::Str(ev[k].value))
                        &&& text_of(get(vars[k], "type"@)) == Some(
                            postman_type_name(ev[k].variable_type),
                        )
                    }
            },
    {
        let mut info_fields: Vec<(String, Json)> = Vec::new();
        info_fields.push((String::from_str("name"), Json::Str(self.name.clone())));
        info_fields.push((String::from_str("description"), opt_json_of(&self.description)));
        info_fields.push((String::from_str("schema"), Json::Str(self.info.schema.clone())));
        info_fields.push(
            (String::from_str("_postman_id"), Json::Str(self.info.postboy_id.clone())),
        );
        let mut items: Vec<Json> = Vec::new();
        let mut i: usize = 0;
        while i < self.folders.len()
            invariant
                i <= self.folders@.len(),
                items@.len() == i,
            decreases self.folders@.len() - i,
        {
            items.push(self.folders[i].to_postman());
            i = i + 1;
        }
        let mut vars: Vec<Json> = Vec::new();
        let mut j: usize = 0;
        while j < self.variables.len()
            invariant
                j <= self.variables@.len(),
                vars@.len() == enabled_variables(self.variables@.take(j as int)).len(),
                forall|k: int|
                    0 <= k < vars@.len() ==> {
                        let ev = enabled_variables(self.variables@.take(j as int));
                        &&& get(#[trigger] vars@[k], "key"@) == Some(Json::Str(ev[k].key))
                        &&& get(vars@[k], "value"@) == Some(Json::Str(ev[k].value))
                        &&& text_of(get(vars@[k], "type"@)) == Some(
                            postman_type_name(ev[k].variable_type),
                        )
                    },
            decreases self.variables@.len() - j,
        {
            proof {
                assert(self.variables@.take(j + 1).drop_last() =~= self.variables@.take(j as int));
            }
            if self.variables[j].enabled {
                vars.push(variable_json(&self.variables[j]));
            }
            j = j + 1;
        }
        assert(self.variables@.take(j as int) =~= self.variables@);
        let mut fields: Vec<(String, Json)> = Vec::new();
        fields.push((String::from_str("info"), Json::Object(info_fields)));
        fields.push((String::from_str("item"), Json::Array(items)));
        fields.push((String::from_str("variable"), Json::Array(vars)));
        proof {
            lemma_distinct_keys();
            reveal_with_fuel(member, 5);
            assert(fields@.drop_first()[0] == fields@[1]);
            assert(fields@.drop_first().drop_first()[0] == fields@[2]);
            assert(info_fields@.drop_first()[0] == info_fields@[1]);
            assert(info_fields@.drop_first().drop_first()[0] == info_fields@[2]);
            assert(info_fields@.drop_first().drop_first().drop_first()[0] == info_fields@[3]);
        }
        Json::Object(fields)
    }
}

proof fn lemma_member_is_field(fields: Seq<(String, Json)>, key: Seq<char>)
    ensures
        member(fields, key) matches Some(v) ==> exists|k: int|
            0 <= k < fields.len() && #[trigger] fields[k].1 == v,
    decreases fields.len(),
{
    if fields.len() > 0 && fields[0].0@ != key {
        let rest = fields.drop_first();
        lemma_member_is_field(rest, key);
        if member(rest, key) is Some {
            let k = choose|k: int| 0 <= k < rest.len() && #[trigger] rest[k].1 == member(
                rest,
                key,
            )->Some_0;
            assert(fields[k + 1] == rest[k]);
        }
    }
}

proof fn lemma_item_smaller(j: Json, items: Vec<Json>, i: int)
    requires
        get(j, "item"@) == Some(Json::Array(items)),
        0 <= i < items@.len(),
    ensures
        decreases_to!(j => items@[i]),
{
    match j {
        Json::Object(fields) => {
            lemma_member_is_field(fields@, "item"@);
            let k = choose|k: int|
                0 <= k < fields@.len() && #[trigger] fields@[k].1 == Json::Array(items);
            let a = fields@[k].1;
            assert(decreases_to!(j => fields));
            assert(decreases_to!(fields => fields@));
            assert(decreases_to!(fields@ => fields@[k]));
            assert(decreases_to!(fields@[k] => fields@[k].1));
            assert(decreases_to!(a => a->Array_0));
            assert(decreases_to!(items => items@));
            assert(decreases_to!(items@ => items@[i]));
        },
        _ => {},
    }
}

} // verus!
