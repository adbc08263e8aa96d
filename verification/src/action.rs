//! The operations that a request can ask for, and the keys each one accepts.

use crate::text::same_text;
use vstd::prelude::*;

verus! {

/// A named top-level operation.
#[derive(Clone, Copy, Debug, PartialEq, Eq, Structural)]
pub enum ActionType {
    FindUnique,
    FindFirst,
    FindMany,
    Create,
    Update,
    Upsert,
    Delete,
    CreateMany,
    UpdateMany,
    DeleteMany,
    Count,
    Aggregate,
    GroupBy,
    SignIn,
    Identity,
}

/// Whether the key is one of those that page through a result.
pub open spec fn is_paging_key(key: Seq<char>) -> bool {
    key == "skip"@ || key == "take"@ || key == "pageSize"@ || key == "pageNumber"@
}

/// Whether the key is one of those that shape the objects of a result.
pub open spec fn is_output_key(key: Seq<char>) -> bool {
    key == "select"@ || key == "include"@
}

/// Whether the key is one of those that pick and order many objects.
pub open spec fn is_listing_key(key: Seq<char>) -> bool {
    key == "where"@ || key == "orderBy"@ || key == "cursor"@ || key == "distinct"@
        || is_paging_key(key)
}

impl ActionType {
    /// Whether the action picks its objects by a filter.
    pub open spec fn spec_requires_where(self) -> bool {
        match self {
            ActionType::FindFirst
            | ActionType::FindMany
            | ActionType::UpdateMany
            | ActionType::DeleteMany
            | ActionType::Count
            | ActionType::Aggregate
            | ActionType::GroupBy => true,
            _ => false,
        }
    }

    /// Whether the action picks its one object by a unique index.
    pub open spec fn spec_requires_where_unique(self) -> bool {
        match self {
            ActionType::FindUnique
            | ActionType::Update
            | ActionType::Upsert
            | ActionType::Delete => true,
            _ => false,
        }
    }

    /// Whether the action expects values to create an object from.
    pub open spec fn spec_requires_create(self) -> bool {
        match self {
            ActionType::Create | ActionType::Upsert | ActionType::CreateMany => true,
            _ => false,
        }
    }

    /// Whether the action expects values to update an object with.
    pub open spec fn spec_requires_update(self) -> bool {
        match self {
            ActionType::Update | ActionType::Upsert | ActionType::UpdateMany => true,
            _ => false,
        }
    }

    /// The closed set of top-level keys that a request for the action may hold.
    pub open spec fn allows_key(self, key: Seq<char>) -> bool {
        match self {
            ActionType::FindUnique => key == "where"@ || is_output_key(key),
            ActionType::FindFirst | ActionType::FindMany => is_listing_key(key) || is_output_key(
                key,
            ),
            ActionType::Create | ActionType::CreateMany => key == "create"@ || is_output_key(key),
            ActionType::Update | ActionType::UpdateMany => key == "where"@ || key == "update"@
                || is_output_key(key),
            ActionType::Upsert => key == "where"@ || key == "create"@ || key == "update"@
                || is_output_key(key),
            ActionType::Delete | ActionType::DeleteMany | ActionType::Count => key == "where"@
                || key == "select"@,
            ActionType::Aggregate | ActionType::GroupBy => is_listing_key(key) || key == "select"@,
            ActionType::SignIn | ActionType::Identity => is_output_key(key),
        }
    }

    pub fn requires_where(&self) -> (r: bool)
        ensures
            r == self.spec_requires_where(),
    {
        match self {
            ActionType::FindFirst
            | ActionType::FindMany
            | ActionType::UpdateMany
            | ActionType::DeleteMany
            | ActionType::Count
            | ActionType::Aggregate
            | ActionType::GroupBy => true,
            _ => false,
        }
    }

    pub fn requires_where_unique(&self) -> (r: bool)
        ensures
            r == self.spec_requires_where_unique(),
    {
        match self {
            ActionType::FindUnique
            | ActionType::Update
            | ActionType::Upsert
            | ActionType::Delete => true,
            _ => false,
        }
    }

    pub fn requires_create(&self) -> (r: bool)
        ensures
            r == self.spec_requires_create(),
    {
        match self {
            ActionType::Create | ActionType::Upsert | ActionType::CreateMany => true,
            _ => false,
        }
    }

    pub fn requires_update(&self) -> (r: bool)
        ensures
            r == self.spec_requires_update(),
    {
        match self {
            ActionType::Update | ActionType::Upsert | ActionType::UpdateMany => true,
            _ => false,
        }
    }

    /// The top-level keys that a request for the action may hold.
    pub fn allowed_input_json_keys(&self) -> (r: Vec<&'static str>)
        ensures
            forall|key: Seq<char>|
                self.allows_key(key) <==> exists|i: int| 0 <= i < r@.len() && (#[trigger] r@[i])@ == key,
    {
        let all: [&'static str; 12] = [
            "where",
            "orderBy",
            "cursor",
            "distinct",
            "skip",
            "take",
            "pageSize",
            "pageNumber",
            "select",
            "include",
            "create",
            "update",
        ];
        let mut out: Vec<&'static str> = Vec::new();
        let mut i: usize = 0;
        while i < 12
            invariant
                i <= 12,
                all@ == seq![
                    "where",
                    "orderBy",
                    "cursor",
                    "distinct",
                    "skip",
                    "take",
                    "pageSize",
                    "pageNumber",
                    "select",
                    "include",
                    "create",
                    "update",
                ],
                forall|k: int| 0 <= k < out@.len() ==> self.allows_key((#[trigger] out@[k])@),
                forall|j: int|
                    0 <= j < i && self.allows_key(all@[j]@) ==> exists|k: int|
                        0 <= k < out@.len() && (#[trigger] out@[k])@ == all@[j]@,
            decreases 12 - i,
        {
            if self.allows(all[i]) {
                let ghost before = out@;
                out.push(all[i]);
                assert(out@[before.len() as int] == all@[i as int]);
                assert forall|j: int| 0 <= j < i && self.allows_key(all@[j]@) implies exists|k: int|
                    0 <= k < out@.len() && (#[trigger] out@[k])@ == all@[j]@ by {
                    let k = choose|k: int| 0 <= k < before.len() && (#[trigger] before[k])@ == all@[j]@;
                    assert(out@[k] == before[k]);
                }
            }
            i += 1;
        }
        assert forall|key: Seq<char>| self.allows_key(key) implies exists|i: int|
            0 <= i < out@.len() && (#[trigger] out@[i])@ == key by {
            let j = if key == "where"@ {
                0int
            } else if key == "orderBy"@ {
                1
            } else if key == "cursor"@ {
                2
            } else if key == "distinct"@ {
                3
            } else if key == "skip"@ {
                4
            } else if key == "take"@ {
                5
            } else if key == "pageSize"@ {
                6
            } else if key == "pageNumber"@ {
                7
            } else if key == "select"@ {
                8
            } else if key == "include"@ {
                9
            } else if key == "create"@ {
                10
            } else {
                11
            };
            assert(all@[j]@ == key);
        }
        out
    }

    /// Whether a request for the action may hold the top-level key.
    pub fn allows(&self, key: &str) -> (r: bool)
        ensures
            r == self.allows_key(key@),
    {
        let paging = same_text(key, "skip") || same_text(key, "take") || same_text(key, "pageSize")
            || same_text(key, "pageNumber");
        let listing = same_text(key, "where") || same_text(key, "orderBy") || same_text(
            key,
            "cursor",
        ) || same_text(key, "distinct") || paging;
        let select = same_text(key, "select");
        let output = select || same_text(key, "include");
        match self {
            ActionType::FindUnique => same_text(key, "where") || output,
            ActionType::FindFirst | ActionType::FindMany => listing || output,
            ActionType::Create | ActionType::CreateMany => same_text(key, "create") || output,
            ActionType::Update | ActionType::UpdateMany => same_text(key, "where") || same_text(
                key,
                "update",
            ) || output,
            ActionType::Upsert => same_text(key, "where") || same_text(key, "create") || same_text(
                key,
                "update",
            ) || output,
            ActionType::Delete | ActionType::DeleteMany | ActionType::Count => same_text(
                key,
                "where",
            ) || select,
            ActionType::Aggregate | ActionType::GroupBy => listing || select,
            ActionType::SignIn | ActionType::Identity => output,
        }
    }
}

/// An action that accepts `where` reads it in exactly one of the two ways:
/// as a filter, or as the key of a unique index.
pub proof fn selector_is_one_of_two(action: ActionType)
    ensures
        action.allows_key("where"@) ==> (action.spec_requires_where()
            != action.spec_requires_where_unique()),
        !(action.spec_requires_where() && action.spec_requires_where_unique()),
{
    reveal_strlit("where");
    reveal_strlit("create");
    reveal_strlit("select");
    reveal_strlit("include");
    assert("where"@.len() == 5);
    assert("create"@.len() == 6);
    assert("select"@.len() == 6);
    assert("include"@.len() == 7);
}

} // verus!
