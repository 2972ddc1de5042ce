use vstd::prelude::*;

use crate::json::{get_str, is_str_entry, lemma_first_member, str_member, Json};

verus! {

/// Whether the authenticated entity is a bot or a server.
#[derive(Debug, Clone, Copy, PartialEq, Eq, Structural)]
pub enum EntityType {
    Bot,
    Server,
}

pub open spec fn bots_tag() -> Seq<char> {
    seq!['b', 'o', 't', 's']
}

pub open spec fn servers_tag() -> Seq<char> {
    seq!['s', 'e', 'r', 'v', 'e', 'r', 's']
}

/// The wire tag of an entity type.
pub open spec fn tag_of(t: EntityType) -> Seq<char> {
    match t {
        EntityType::Bot => bots_tag(),
        EntityType::Server => servers_tag(),
    }
}

/// The entity type whose wire tag is `tag`.
pub open spec fn entity_type_of_tag(tag: Seq<char>) -> Option<EntityType> {
    if tag == bots_tag() {
        Some(EntityType::Bot)
    } else if tag == servers_tag() {
        Some(EntityType::Server)
    } else {
        None
    }
}

impl EntityType {
    /// The entity type written on the wire as `tag`.
    pub fn from_tag(tag: &str) -> (r: Option<EntityType>)
        ensures
            r == entity_type_of_tag(tag@),
    {
        proof {
            reveal_strlit("bots");
            reveal_strlit("servers");
        }
        assert("bots"@ =~= bots_tag());
        assert("servers"@ =~= servers_tag());
        if crate::text::same_text(tag, "bots") {
            Some(EntityType::Bot)
        } else if crate::text::same_text(tag, "servers") {
            Some(EntityType::Server)
        } else {
            None
        }
    }

    /// The wire tag.
    pub fn tag(&self) -> (r: String)
        ensures
            r@ == tag_of(*self),
    {
        proof {
            reveal_strlit("bots");
            reveal_strlit("servers");
        }
        match self {
            EntityType::Bot => {
                let s = "bots".to_string();
                assert(s@ =~= bots_tag());
                s
            },
            EntityType::Server => {
                let s = "servers".to_string();
                assert(s@ =~= servers_tag());
                s
            },
        }
    }
}

/// The bot or server that the connection authenticated as.
#[derive(Debug, Clone, PartialEq, Eq)]
pub struct Entity {
    pub id: String,
    pub entity_type: EntityType,
    pub name: String,
}

/// An entity's fields, with text as character sequences.
pub ghost struct EntityModel {
    pub id: Seq<char>,
    pub entity_type: EntityType,
    pub name: Seq<char>,
}

impl View for Entity {
    type V = EntityModel;

    open spec fn view(&self) -> EntityModel {
        EntityModel { id: self.id@, entity_type: self.entity_type, name: self.name@ }
    }
}

pub open spec fn id_key() -> Seq<char> {
    seq!['i', 'd']
}

pub open spec fn type_key() -> Seq<char> {
    seq!['t', 'y', 'p', 'e']
}

pub open spec fn name_key() -> Seq<char> {
    seq!['n', 'a', 'm', 'e']
}

/// The entity that a JSON value describes: an object with string members
/// `id`, `type` (a known tag) and `name`.
pub open spec fn entity_model_of(j: Json) -> Option<EntityModel> {
    match j {
        Json::Object(ms) => {
            let id = str_member(ms@, id_key());
            let tag = str_member(ms@, type_key());
            let name = str_member(ms@, name_key());
            if id is Some && tag is Some && name is Some && entity_type_of_tag(tag.unwrap()) is Some {
                Some(
                    EntityModel {
                        id: id.unwrap(),
                        entity_type: entity_type_of_tag(tag.unwrap()).unwrap(),
                        name: name.unwrap(),
                    },
                )
            } else {
                None
            }
        },
        _ => None,
    }
}

/// `j` is the wire form of the entity `m`.
pub open spec fn is_entity_json(j: Json, m: EntityModel) -> bool {
    &&& j matches Json::Object(ms)
    &&& ms@.len() == 3
    &&& is_str_entry(ms@[0], id_key(), m.id)
    &&& is_str_entry(ms@[1], type_key(), tag_of(m.entity_type))
    &&& is_str_entry(ms@[2], name_key(), m.name)
}

pub open spec fn opt_entity_view(r: Option<Entity>) -> Option<EntityModel> {
    match r {
        Some(e) => Some(e@),
        None => None,
    }
}

impl Entity {
    /// Decodes the entity that `j` describes.
    pub fn from_json(j: &Json) -> (r: Option<Entity>)
        ensures
            opt_entity_view(r) == entity_model_of(*j),
    {
        proof {
            reveal_strlit("id");
            reveal_strlit("type");
            reveal_strlit("name");
        }
        assert("id"@ =~= id_key());
        assert("type"@ =~= type_key());
        assert("name"@ =~= name_key());
        match j {
            Json::Object(ms) => {
                let id = get_str(ms, "id");
                let tag = get_str(ms, "type");
                let name = get_str(ms, "name");
                match (id, tag, name) {
                    (Some(id), Some(tag), Some(name)) => match EntityType::from_tag(tag.as_str()) {
                        Some(entity_type) => Some(Entity { id, entity_type, name }),
                        None => None,
                    },
                    _ => None,
                }
            },
            _ => None,
        }
    }

    /// The wire form: an object with members `id`, `type` and `name`.
    pub fn to_json(self) -> (r: Json)
        ensures
            is_entity_json(r, self@),
    {
        proof {
            reveal_strlit("id");
            reveal_strlit("type");
            reveal_strlit("name");
        }
        let k0 = "id".to_string();
        let k1 = "type".to_string();
        let k2 = "name".to_string();
        assert(k0@ =~= id_key());
        assert(k1@ =~= type_key());
        assert(k2@ =~= name_key());
        let tag = self.entity_type.tag();
        let mut ms: Vec<(String, Json)> = Vec::new();
        ms.push((k0, Json::Str(self.id)));
        ms.push((k1, Json::Str(tag)));
        ms.push((k2, Json::Str(self.name)));
        Json::Object(ms)
    }
}

/// Decoding the wire form of an entity gives back that entity, field for field.
pub proof fn lemma_entity_round_trip(j: Json, m: EntityModel)
    requires
        is_entity_json(j, m),
    ensures
        entity_model_of(j) == Some(m),
{
    let ms = j->Object_0@;
    assert(id_key() != type_key()) by {
        assert(id_key().len() != type_key().len());
    }
    assert(id_key() != name_key()) by {
        assert(id_key().len() != name_key().len());
    }
    assert(type_key() != name_key()) by {
        assert(type_key()[0] != name_key()[0]);
    }
    lemma_first_member(ms, id_key(), 0);
    lemma_first_member(ms, type_key(), 1);
    lemma_first_member(ms, name_key(), 2);
    assert(bots_tag() != servers_tag()) by {
        assert(bots_tag().len() != servers_tag().len());
    }
}

} // verus!
