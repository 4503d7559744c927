//! Properties of the identity registry.

use vstd::prelude::*;
use crate::identityservice::contract::{first_invalid, is_name_char, name_refusal, user_refusal};
use crate::identityservice::error::ContractError;
use vstd::utf8::encode_utf8;
use crate::identityservice::state::{IdType, Identity};

verus! {

/// No two owners hold identities with the same name.
pub open spec fn names_unique(registry: Map<Seq<char>, Identity>) -> bool {
    forall|a: Seq<char>, b: Seq<char>|
        #![trigger registry[a], registry[b]]
        registry.contains_key(a) && registry.contains_key(b) && a != b ==> registry[a].name@ != registry[b].name@
}

/// Whether some identity in `registry` carries `name`.
pub open spec fn name_registered(registry: Map<Seq<char>, Identity>, name: Seq<char>) -> bool {
    exists|o: Seq<char>| registry.contains_key(o) && #[trigger] registry[o].name@ == name
}

/// Registering users keeps names unique and gives each address at most one
/// identity: a registration accepted on a registry (looked up by owner and by
/// name) never overwrites an identity and never duplicates a name.
pub proof fn lemma_user_registration_keeps_names_unique(registry: Map<Seq<char>, Identity>, sender: String, name: String)
    requires
        names_unique(registry),
        user_refusal(name@, registry.contains_key(sender@), name_registered(registry, name@), name) is None,
    ensures
        !registry.contains_key(sender@),
        names_unique(registry.insert(sender@, Identity { owner: sender, name, id_type: IdType::User })),
{
    let after = registry.insert(sender@, Identity { owner: sender, name, id_type: IdType::User });
    assert forall|a: Seq<char>, b: Seq<char>|
        #![trigger after[a], after[b]]
        after.contains_key(a) && after.contains_key(b) && a != b implies after[a].name@ != after[b].name@ by {
        if a == sender@ {
            assert(registry.contains_key(b));
            assert(registry[b].name@ != name@);
        } else if b == sender@ {
            assert(registry.contains_key(a));
            assert(registry[a].name@ != name@);
        } else {
            assert(registry[a] == after[a]);
            assert(registry[b] == after[b]);
        }
    }
}

/// A name of 3 to 20 bytes made only of ASCII digits, lowercase letters,
/// `.`, `-` and `_` is accepted; one of valid length holding any other
/// character (an uppercase letter, a space, ...) is refused, naming the first
/// such character.
pub proof fn lemma_name_rules(name: Seq<char>)
    ensures
        (3 <= encode_utf8(name).len() <= 20 && forall|i: int| 0 <= i < name.len() ==> {
            let c = #[trigger] name[i];
            ('0' <= c <= '9') || ('a' <= c <= 'z') || c == '.' || c == '-' || c == '_'
        }) ==> name_refusal(name) is None,
        forall|k: int| 3 <= encode_utf8(name).len() <= 20 && 0 <= k < name.len() && !({
            let c = #[trigger] name[k];
            ('0' <= c <= '9') || ('a' <= c <= 'z') || c == '.' || c == '-' || c == '_'
        }) && (forall|j: int| 0 <= j < k ==> {
            let d = #[trigger] name[j];
            ('0' <= d <= '9') || ('a' <= d <= 'z') || d == '.' || d == '-' || d == '_'
        })
            ==> name_refusal(name) == Some(ContractError::InvalidCharacter { c: name[k] }),
{
    assert forall|k: int| 3 <= encode_utf8(name).len() <= 20 && 0 <= k < name.len() && !({
            let c = #[trigger] name[k];
            ('0' <= c <= '9') || ('a' <= c <= 'z') || c == '.' || c == '-' || c == '_'
        }) && (forall|j: int| 0 <= j < k ==> {
            let d = #[trigger] name[j];
            ('0' <= d <= '9') || ('a' <= d <= 'z') || d == '.' || d == '-' || d == '_'
        })
        implies name_refusal(name) == Some(ContractError::InvalidCharacter { c: name[k] }) by {
        let i = first_invalid(name)->0;
        assert(!is_name_char(name[k]));
        assert(first_invalid(name) is Some);
        assert(!is_name_char(name[i]) && forall|j: int| 0 <= j < i ==> is_name_char(#[trigger] name[j]));
        if i < k {
            assert(is_name_char(name[i]));
        }
        if k < i {
            assert(is_name_char(name[k]));
        }
    }
}

} // verus!
