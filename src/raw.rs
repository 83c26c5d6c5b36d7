//! The wire schema: the operations sent to the device-group endpoint and the
//! body it answers with.
use vstd::prelude::*;
use crate::json::{
    is_string_or_array, lemma_array_is_plain, lemma_json_object_injective,
    lemma_json_string_array_injective, lemma_json_string_injective, lemma_string_is_plain,
    plain_members, json_object, json_string, json_string_array, lemma_object_prefix_push, object_prefix,
    push_json_string, push_json_string_array, push_member_key, views,
};

verus! {

/// Key of the discriminator member of an encoded operation.
pub const OPERATION_KEY: &'static str = "operation";

/// Key of the group name member.
pub const NOTIFICATION_KEY_NAME_KEY: &'static str = "notification_key_name";

/// Key of the group key member, in operations and in responses.
pub const NOTIFICATION_KEY_KEY: &'static str = "notification_key";

/// Key of the registration ids member.
pub const REGISTRATION_IDS_KEY: &'static str = "registration_ids";

/// Discriminator of a create operation.
pub const CREATE_TAG: &'static str = "create";

/// Discriminator of an add operation.
pub const ADD_TAG: &'static str = "add";

/// Discriminator of a remove operation.
pub const REMOVE_TAG: &'static str = "remove";

/// An operation posted to the device-group endpoint.
#[derive(Debug, Clone)]
pub enum Operation {
    /// Create a new device group with the given name and members.
    Create {
        /// Name of the device group.
        notification_key_name: String,
        /// Registration ids the group starts with.
        registration_ids: Vec<String>,
    },
    /// Add devices to a device group.
    Add {
        /// Name of the device group; optional, but it guards against using
        /// the wrong key.
        notification_key_name: Option<String>,
        /// Key of the device group.
        notification_key: String,
        /// Registration ids to add.
        registration_ids: Vec<String>,
    },
    /// Remove devices from a device group.
    Remove {
        /// Name of the device group; optional, but it guards against using
        /// the wrong key.
        notification_key_name: Option<String>,
        /// Key of the device group.
        notification_key: String,
        /// Registration ids to remove.
        registration_ids: Vec<String>,
    },
}

/// Body of a successful answer.
#[derive(Debug, Clone)]
pub struct OperationResponse {
    /// Key of the affected device group.
    pub notification_key: String,
}

/// The members of an add or remove operation after its discriminator: the
/// name only when present, then the key and the registration ids.
pub open spec fn change_members(
    name: Option<String>,
    key: String,
    ids: Vec<String>,
) -> Seq<(Seq<char>, Seq<char>)> {
    let named: Seq<(Seq<char>, Seq<char>)> = match name {
        Some(n) => seq![(NOTIFICATION_KEY_NAME_KEY@, json_string(n@))],
        None => Seq::empty(),
    };
    named + seq![
        (NOTIFICATION_KEY_KEY@, json_string(key@)),
        (REGISTRATION_IDS_KEY@, json_string_array(views(ids@))),
    ]
}

/// The discriminator of an operation.
pub open spec fn operation_tag(op: Operation) -> Seq<char> {
    match op {
        Operation::Create { .. } => CREATE_TAG@,
        Operation::Add { .. } => ADD_TAG@,
        Operation::Remove { .. } => REMOVE_TAG@,
    }
}

/// The members of the encoded operation, in order, each value already encoded.
pub open spec fn operation_members(op: Operation) -> Seq<(Seq<char>, Seq<char>)> {
    seq![(OPERATION_KEY@, json_string(operation_tag(op)))] + match op {
        Operation::Create { notification_key_name, registration_ids } => seq![
            (NOTIFICATION_KEY_NAME_KEY@, json_string(notification_key_name@)),
            (REGISTRATION_IDS_KEY@, json_string_array(views(registration_ids@))),
        ],
        Operation::Add { notification_key_name, notification_key, registration_ids } =>
            change_members(notification_key_name, notification_key, registration_ids),
        Operation::Remove { notification_key_name, notification_key, registration_ids } =>
            change_members(notification_key_name, notification_key, registration_ids),
    }
}

/// The JSON text of an operation.
pub open spec fn operation_json(op: Operation) -> Seq<char> {
    json_object(operation_members(op))
}

/// Appends the members of an add or remove operation that follow its discriminator.
fn push_change_members(
    out: &mut String,
    Ghost(done): Ghost<Seq<(Seq<char>, Seq<char>)>>,
    name: &Option<String>,
    key: &String,
    ids: &Vec<String>,
)
    requires
        done.len() > 0,
        old(out)@ == object_prefix(done),
    ensures
        final(out)@ == object_prefix(done + change_members(*name, *key, *ids)),
{
    let ghost mut d = done;
    match name {
        Some(n) => {
            push_member_key(out, false, NOTIFICATION_KEY_NAME_KEY);
            push_json_string(out, n.as_str());
            proof {
                lemma_object_prefix_push(d, (NOTIFICATION_KEY_NAME_KEY@, json_string(n@)));
                d = d.push((NOTIFICATION_KEY_NAME_KEY@, json_string(n@)));
            }
        },
        None => {},
    }
    push_member_key(out, false, NOTIFICATION_KEY_KEY);
    push_json_string(out, key.as_str());
    proof {
        lemma_object_prefix_push(d, (NOTIFICATION_KEY_KEY@, json_string(key@)));
        d = d.push((NOTIFICATION_KEY_KEY@, json_string(key@)));
    }
    push_member_key(out, false, REGISTRATION_IDS_KEY);
    push_json_string_array(out, ids);
    proof {
        lemma_object_prefix_push(d, (REGISTRATION_IDS_KEY@, json_string_array(views(ids@))));
        d = d.push((REGISTRATION_IDS_KEY@, json_string_array(views(ids@))));
        assert(d =~= done + change_members(*name, *key, *ids));
    }
}

/// The text that every encoded operation starts with: the opening brace and
/// the discriminator member.
pub open spec fn tag_prefix(op: Operation) -> Seq<char> {
    match op {
        Operation::Create { .. } => "{\"operation\":\"create\""@,
        Operation::Add { .. } => "{\"operation\":\"add\""@,
        Operation::Remove { .. } => "{\"operation\":\"remove\""@,
    }
}

/// Every encoded operation begins with `{"operation":"<tag>"`, the tag being
/// `create`, `add` or `remove` in lower case.
pub proof fn lemma_operation_tag_literal(op: Operation)
    ensures
        tag_prefix(op).len() <= operation_json(op).len(),
        operation_json(op).subrange(0, tag_prefix(op).len() as int) == tag_prefix(op),
{
    let members = operation_members(op);
    let parts = members.map_values(|m: (Seq<char>, Seq<char>)| crate::json::json_member(m));
    crate::json::lemma_join_commas_prefix(parts);
    let joined = crate::json::join_commas(parts);
    lemma_tag_member(op);
    assert(tag_prefix(op) =~= seq!['{'] + parts[0]);
    assert(operation_json(op) =~= seq!['{'] + joined + seq!['}']);
    assert(operation_json(op).subrange(0, tag_prefix(op).len() as int) =~= seq!['{'] + joined.subrange(
        0,
        parts[0].len() as int,
    ));
}

/// The discriminator member, written out.
proof fn lemma_tag_member(op: Operation)
    ensures
        tag_prefix(op) == seq!['{'] + crate::json::json_member(
            (OPERATION_KEY@, json_string(operation_tag(op))),
        ),
{
    reveal_strlit("operation");
    crate::json::lemma_plain_escape(OPERATION_KEY@);
    match op {
        Operation::Create { .. } => {
            reveal_strlit("create");
            reveal_strlit("{\"operation\":\"create\"");
            crate::json::lemma_plain_escape(CREATE_TAG@);
        },
        Operation::Add { .. } => {
            reveal_strlit("add");
            reveal_strlit("{\"operation\":\"add\"");
            crate::json::lemma_plain_escape(ADD_TAG@);
        },
        Operation::Remove { .. } => {
            reveal_strlit("remove");
            reveal_strlit("{\"operation\":\"remove\"");
            crate::json::lemma_plain_escape(REMOVE_TAG@);
        },
    }
    assert(tag_prefix(op) =~= seq!['{'] + crate::json::json_member(
        (OPERATION_KEY@, json_string(operation_tag(op))),
    ));
}

/// An add or remove operation without a name has no `notification_key_name`
/// member at all: its members are exactly the discriminator, the key and the
/// registration ids.
pub proof fn lemma_absent_name_omitted(op: Operation)
    requires
        op matches Operation::Add { notification_key_name: None, .. }
            || op matches Operation::Remove { notification_key_name: None, .. },
    ensures
        operation_json(op) == json_object(operation_members(op)),
        operation_members(op).len() == 3,
        operation_members(op)[0].0 == OPERATION_KEY@,
        operation_members(op)[1].0 == NOTIFICATION_KEY_KEY@,
        operation_members(op)[2].0 == REGISTRATION_IDS_KEY@,
        forall|i: int|
            0 <= i < operation_members(op).len() ==> operation_members(op)[i].0
                != NOTIFICATION_KEY_NAME_KEY@,
{
    reveal_strlit("operation");
    reveal_strlit("notification_key");
    reveal_strlit("registration_ids");
    reveal_strlit("notification_key_name");
    let m = operation_members(op);
    assert(m[0].0.len() == 9);
    assert(m[1].0.len() == 16);
    assert(m[2].0.len() == 16);
    assert(NOTIFICATION_KEY_NAME_KEY@.len() == 21);
}

/// The fields of an operation, as views: its tag, its group name when it has
/// one, its group key when it has one, and its registration ids.
pub open spec fn operation_fields(op: Operation) -> (
    Seq<char>,
    Option<Seq<char>>,
    Option<Seq<char>>,
    Seq<Seq<char>>,
) {
    match op {
        Operation::Create { notification_key_name, registration_ids } => (
            CREATE_TAG@,
            Some(notification_key_name@),
            None,
            views(registration_ids@),
        ),
        Operation::Add { notification_key_name, notification_key, registration_ids } => (
            ADD_TAG@,
            match notification_key_name {
                Some(n) => Some(n@),
                None => None,
            },
            Some(notification_key@),
            views(registration_ids@),
        ),
        Operation::Remove { notification_key_name, notification_key, registration_ids } => (
            REMOVE_TAG@,
            match notification_key_name {
                Some(n) => Some(n@),
                None => None,
            },
            Some(notification_key@),
            views(registration_ids@),
        ),
    }
}

/// Every member value of an encoded operation is a string or an array of strings.
proof fn lemma_operation_members_plain(op: Operation)
    ensures
        plain_members(operation_members(op)),
{
    let m = operation_members(op);
    lemma_string_is_plain(json_string(operation_tag(op)));
    lemma_string_is_plain(operation_tag(op));
    match op {
        Operation::Create { notification_key_name, registration_ids } => {
            lemma_string_is_plain(notification_key_name@);
            lemma_array_is_plain(views(registration_ids@));
        },
        Operation::Add { notification_key_name, notification_key, registration_ids } => {
            if let Some(n) = notification_key_name {
                lemma_string_is_plain(n@);
            }
            lemma_string_is_plain(notification_key@);
            lemma_array_is_plain(views(registration_ids@));
        },
        Operation::Remove { notification_key_name, notification_key, registration_ids } => {
            if let Some(n) = notification_key_name {
                lemma_string_is_plain(n@);
            }
            lemma_string_is_plain(notification_key@);
            lemma_array_is_plain(views(registration_ids@));
        },
    }
    assert forall|i: int| 0 <= i < m.len() implies is_string_or_array(#[trigger] m[i].1) by {
        if i == 0 {
            assert(m[0].1 == json_string(operation_tag(op)));
        }
    }
}

/// The JSON text of an operation determines it: two operations with the same
/// text have the same variant and the same fields; the text loses nothing of
/// the operation.
pub proof fn lemma_operation_json_injective(op1: Operation, op2: Operation)
    requires
        operation_json(op1) == operation_json(op2),
    ensures
        operation_fields(op1) == operation_fields(op2),
{
    lemma_operation_members_plain(op1);
    lemma_operation_members_plain(op2);
    lemma_json_object_injective(operation_members(op1), operation_members(op2));
    let m1 = operation_members(op1);
    let m2 = operation_members(op2);
    assert(m1[0] == m2[0]);
    lemma_json_string_injective(operation_tag(op1), operation_tag(op2));
    reveal_strlit("create");
    reveal_strlit("add");
    reveal_strlit("remove");
    assert(CREATE_TAG@[0] != REMOVE_TAG@[0]);
    match (op1, op2) {
        (
            Operation::Create { notification_key_name: n1, registration_ids: i1 },
            Operation::Create { notification_key_name: n2, registration_ids: i2 },
        ) => {
            assert(m1[1] == m2[1]);
            assert(m1[2] == m2[2]);
            lemma_json_string_injective(n1@, n2@);
            lemma_json_string_array_injective(views(i1@), views(i2@));
        },
        (
            Operation::Add { notification_key_name: n1, notification_key: k1, registration_ids: i1 },
            Operation::Add { notification_key_name: n2, notification_key: k2, registration_ids: i2 },
        ) => {
            assert(m1.drop_first() =~= change_members(n1, k1, i1));
            assert(m2.drop_first() =~= change_members(n2, k2, i2));
            lemma_change_members_injective(n1, k1, i1, n2, k2, i2);
        },
        (
            Operation::Remove { notification_key_name: n1, notification_key: k1, registration_ids: i1 },
            Operation::Remove { notification_key_name: n2, notification_key: k2, registration_ids: i2 },
        ) => {
            assert(m1.drop_first() =~= change_members(n1, k1, i1));
            assert(m2.drop_first() =~= change_members(n2, k2, i2));
            lemma_change_members_injective(n1, k1, i1, n2, k2, i2);
        },
        _ => {},
    }
}

/// Add and remove members with the same text have the same fields.
proof fn lemma_change_members_injective(
    n1: Option<String>,
    k1: String,
    i1: Vec<String>,
    n2: Option<String>,
    k2: String,
    i2: Vec<String>,
)
    requires
        change_members(n1, k1, i1) == change_members(n2, k2, i2),
    ensures
        n1 is Some <==> n2 is Some,
        n1 is Some ==> n1->Some_0@ == n2->Some_0@,
        k1@ == k2@,
        views(i1@) == views(i2@),
{
    let c1 = change_members(n1, k1, i1);
    let c2 = change_members(n2, k2, i2);
    assert(c1.len() == c2.len());
    let o: int = if n1 is Some { 1 } else { 0 };
    assert(c1[o] == c2[o]);
    assert(c1[o + 1] == c2[o + 1]);
    lemma_json_string_injective(k1@, k2@);
    lemma_json_string_array_injective(views(i1@), views(i2@));
    if let Some(a) = n1 {
        let b = n2->Some_0;
        assert(c1[0] == c2[0]);
        lemma_json_string_injective(a@, b@);
    }
}

/// The create operation for a new group.
pub fn create_group_operation(
    notification_key_name: String,
    registration_ids: Vec<String>,
) -> (r: Operation)
    ensures
        r == (Operation::Create { notification_key_name, registration_ids }),
{
    Operation::Create { notification_key_name, registration_ids }
}

/// The add operation for a known group; its name is always sent.
pub fn add_to_group_operation(
    notification_key_name: String,
    notification_key: String,
    registration_ids: Vec<String>,
) -> (r: Operation)
    ensures
        r == (Operation::Add {
            notification_key_name: Some(notification_key_name),
            notification_key,
            registration_ids,
        }),
{
    Operation::Add { notification_key_name: Some(notification_key_name), notification_key, registration_ids }
}

/// The remove operation for a known group; its name is always sent.
pub fn remove_from_group_operation(
    notification_key_name: String,
    notification_key: String,
    registration_ids: Vec<String>,
) -> (r: Operation)
    ensures
        r == (Operation::Remove {
            notification_key_name: Some(notification_key_name),
            notification_key,
            registration_ids,
        }),
{
    Operation::Remove {
        notification_key_name: Some(notification_key_name),
        notification_key,
        registration_ids,
    }
}

impl Operation {
    /// The JSON body of this operation: an object whose first member is
    /// `"operation"` with the lower-case tag, then the payload fields in
    /// declaration order, an absent name left out.
    pub fn to_json(&self) -> (r: String)
        ensures
            r@ == operation_json(*self),
    {
        let mut out = String::new();
        out.push('{');
        let ghost e: Seq<(Seq<char>, Seq<char>)> = Seq::empty();
        proof {
            assert(object_prefix(e) =~= seq!['{']);
        }
        let tag: &str = match self {
            Operation::Create { .. } => CREATE_TAG,
            Operation::Add { .. } => ADD_TAG,
            Operation::Remove { .. } => REMOVE_TAG,
        };
        push_member_key(&mut out, true, OPERATION_KEY);
        push_json_string(&mut out, tag);
        let ghost first = (OPERATION_KEY@, json_string(operation_tag(*self)));
        proof {
            lemma_object_prefix_push(e, first);
            assert(e.push(first) =~= seq![first]);
        }
        let ghost g = seq![first];
        match self {
            Operation::Create { notification_key_name, registration_ids } => {
                let ghost d = g;
                push_member_key(&mut out, false, NOTIFICATION_KEY_NAME_KEY);
                push_json_string(&mut out, notification_key_name.as_str());
                let ghost m1 = (NOTIFICATION_KEY_NAME_KEY@, json_string(notification_key_name@));
                proof {
                    lemma_object_prefix_push(d, m1);
                }
                push_member_key(&mut out, false, REGISTRATION_IDS_KEY);
                push_json_string_array(&mut out, registration_ids);
                let ghost m2 = (REGISTRATION_IDS_KEY@, json_string_array(views(registration_ids@)));
                proof {
                    lemma_object_prefix_push(d.push(m1), m2);
                    assert(d.push(m1).push(m2) =~= operation_members(*self));
                }
            },
            Operation::Add { notification_key_name, notification_key, registration_ids } => {
                push_change_members(
                    &mut out,
                    Ghost(g),
                    notification_key_name,
                    notification_key,
                    registration_ids,
                );
                assert(g + change_members(
                    *notification_key_name,
                    *notification_key,
                    *registration_ids,
                ) =~= operation_members(*self));
            },
            Operation::Remove { notification_key_name, notification_key, registration_ids } => {
                push_change_members(
                    &mut out,
                    Ghost(g),
                    notification_key_name,
                    notification_key,
                    registration_ids,
                );
                assert(g + change_members(
                    *notification_key_name,
                    *notification_key,
                    *registration_ids,
                ) =~= operation_members(*self));
            },
        }
        out.push('}');
        assert(out@ =~= operation_json(*self));
        out
    }
}

} // verus!
