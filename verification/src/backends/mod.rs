//! The backends: for each, the decisions it takes around the hardware or
//! service that holds its keys, and the records it stores about them.
use vstd::prelude::*;

use crate::types::{op_error, Algorithm, Bindings, HardwareBound, KeyOrIdentifier, KeyUsage, SeetleError};

pub mod keyring;
pub mod mock;
pub mod nordic;
pub mod secure_env;
pub mod tpm;
pub mod tropic;
pub mod xhd;

verus! {

/// What a backend stores about a key: its bindings, its algorithm and the
/// usages it was created for.
#[derive(Debug, Clone, PartialEq, Eq)]
pub struct StoredKey {
    pub bindings: Bindings,
    pub algorithm: Algorithm,
    pub usages: Vec<KeyUsage>,
}

/// The name under which a usage is written in messages.
pub open spec fn usage_name(u: KeyUsage) -> Seq<char> {
    match u {
        KeyUsage::Encrypt => "Encrypt"@,
        KeyUsage::Decrypt => "Decrypt"@,
        KeyUsage::Sign => "Sign"@,
        KeyUsage::Verify => "Verify"@,
        KeyUsage::DeriveKey => "DeriveKey"@,
        KeyUsage::DeriveBits => "DeriveBits"@,
        KeyUsage::WrapKey => "WrapKey"@,
        KeyUsage::UnwrapKey => "UnwrapKey"@,
    }
}

/// The error text for a key used for what it was not created for.
pub open spec fn usage_message(u: KeyUsage) -> Seq<char> {
    "Key does not support usage: "@ + usage_name(u)
}

/// The name under which a usage is written in messages.
pub fn usage_str(u: KeyUsage) -> (s: &'static str)
    ensures
        s@ == usage_name(u),
{
    match u {
        KeyUsage::Encrypt => "Encrypt",
        KeyUsage::Decrypt => "Decrypt",
        KeyUsage::Sign => "Sign",
        KeyUsage::Verify => "Verify",
        KeyUsage::DeriveKey => "DeriveKey",
        KeyUsage::DeriveBits => "DeriveBits",
        KeyUsage::WrapKey => "WrapKey",
        KeyUsage::UnwrapKey => "UnwrapKey",
    }
}

/// Succeeds when `usages` allows `usage`; otherwise an `OperationError`
/// naming the usage.
pub fn check_usage(usages: &[KeyUsage], usage: KeyUsage) -> (r: Result<(), SeetleError>)
    ensures
        r is Ok <==> usages@.contains(usage),
        r matches Err(e) ==> op_error(e, usage_message(usage)),
{
    let mut i: usize = 0;
    while i < usages.len()
        invariant
            i <= usages@.len(),
            forall|j: int| 0 <= j < i ==> usages@[j] != usage,
        decreases usages@.len() - i,
    {
        if usages[i] == usage {
            return Ok(());
        }
        i = i + 1;
    }
    let mut msg = String::from_str("Key does not support usage: ");
    msg.append(usage_str(usage));
    proof {
        reveal_strlit("Key does not support usage: ");
        assert(msg@ =~= usage_message(usage));
    }
    Err(SeetleError::OperationError(msg))
}

/// The identifier of a stored key; keys given by value are not supported.
pub fn key_identifier(key: &KeyOrIdentifier) -> (r: Result<String, SeetleError>)
    ensures
        match key {
            KeyOrIdentifier::Identifier(id) => r matches Ok(s) && s@ == id@,
            KeyOrIdentifier::Key(_) => r matches Err(SeetleError::NotSupported),
        },
{
    match key {
        KeyOrIdentifier::Identifier(id) => Ok(id.clone()),
        KeyOrIdentifier::Key(_) => Err(SeetleError::NotSupported),
    }
}

/// A hardware-bound key cannot be created extractable.
pub open spec fn extractable_conflict(b: Bindings, extractable: bool) -> bool {
    b.hardware_bound == HardwareBound::Yes && extractable
}

/// The error text for a hardware-bound key asked to be extractable.
pub open spec fn extractable_message() -> Seq<char> {
    "Hardware bound keys cannot be extractable"@
}

/// Refuses to create a hardware-bound key that is also extractable.
pub fn check_extractable(b: &Bindings, extractable: bool) -> (r: Result<(), SeetleError>)
    ensures
        r is Err <==> extractable_conflict(*b, extractable),
        r matches Err(e) ==> op_error(e, extractable_message()),
{
    if b.hardware_bound == HardwareBound::Yes && extractable {
        Err(
            SeetleError::OperationError(
                String::from_str("Hardware bound keys cannot be extractable"),
            ),
        )
    } else {
        Ok(())
    }
}

/// The error text for an update of a key created as not updatable.
pub open spec fn not_updatable_message() -> Seq<char> {
    "Key is not updatable"@
}

/// Replaces the bindings of a stored key, when it was created updatable.
pub fn update_record(record: StoredKey, new_bindings: Bindings) -> (r: Result<StoredKey, SeetleError>)
    ensures
        if record.bindings.updatable {
            r matches Ok(k) && k.bindings == new_bindings && k.algorithm == record.algorithm
                && k.usages@ == record.usages@
        } else {
            r matches Err(e) && op_error(e, not_updatable_message())
        },
{
    if !record.bindings.updatable {
        return Err(SeetleError::OperationError(String::from_str("Key is not updatable")));
    }
    Ok(StoredKey { bindings: new_bindings, algorithm: record.algorithm, usages: record.usages })
}

/// The names a backend lists: those of the store that do not begin with
/// `.`, in order.
pub open spec fn visible_names(names: Seq<Seq<char>>) -> Seq<Seq<char>>
    decreases names.len(),
{
    if names.len() == 0 {
        Seq::empty()
    } else {
        let rest = visible_names(names.drop_last());
        if is_hidden(names.last()) {
            rest
        } else {
            rest.push(names.last())
        }
    }
}

/// A name that begins with `.` is internal to a backend.
pub open spec fn is_hidden(name: Seq<char>) -> bool {
    name.len() > 0 && name[0] == '.'
}

/// Whether a name begins with `.`.
pub fn starts_with_dot(s: &str) -> (r: bool)
    ensures
        r == is_hidden(s@),
{
    let c = crate::text::chars_of(s);
    c.len() > 0 && c[0] == '.'
}

/// Drops the hidden names (those that begin with `.`), keeping the order of
/// the others.
pub fn visible_keys(names: Vec<String>) -> (r: Vec<String>)
    ensures
        r@.map_values(|s: String| s@) == visible_names(names@.map_values(|s: String| s@)),
{
    let ghost all = names@.map_values(|s: String| s@);
    let mut out: Vec<String> = Vec::new();
    let mut i: usize = 0;
    while i < names.len()
        invariant
            i <= names@.len(),
            all == names@.map_values(|s: String| s@),
            out@.map_values(|s: String| s@) == visible_names(all.take(i as int)),
        decreases names@.len() - i,
    {
        let hidden = starts_with_dot(names[i].as_str());
        proof {
            assert(all.take(i + 1).drop_last() =~= all.take(i as int));
            assert(all.take(i + 1).last() == names@[i as int]@);
        }
        if !hidden {
            let n = names[i].clone();
            out.push(n);
            proof {
                assert(out@.map_values(|s: String| s@) =~= visible_names(all.take(i as int)).push(
                    names@[i as int]@,
                ));
            }
        }
        i = i + 1;
    }
    proof {
        assert(all.take(i as int) =~= all);
    }
    out
}

/// A listing hides exactly the names whose first character is `.`: a name
/// is listed if and only if it is among the stored names and is empty or
/// starts with another character, whatever characters follow.
pub proof fn law_listing_hides_dot_names(names: Seq<Seq<char>>, n: Seq<char>)
    ensures
        visible_names(names).contains(n) <==> (names.contains(n) && (n.len() == 0 || n[0]
            != '.')),
    decreases names.len(),
{
    if names.len() > 0 {
        let rest = names.drop_last();
        law_listing_hides_dot_names(rest, n);
        let v = visible_names(rest);
        assert(names =~= rest.push(names.last()));
        if names.contains(n) && !rest.contains(n) {
            let k = choose|k: int| 0 <= k < names.len() && names[k] == n;
            if k < rest.len() {
                assert(rest[k] == n);
            }
            assert(names.last() == n);
        }
        if rest.contains(n) {
            let k = choose|k: int| 0 <= k < rest.len() && rest[k] == n;
            assert(names[k] == n);
        }
        if !is_hidden(names.last()) {
            let w = v.push(names.last());
            if w.contains(n) && !v.contains(n) {
                let k = choose|k: int| 0 <= k < w.len() && w[k] == n;
                if k < v.len() {
                    assert(v[k] == n);
                }
                assert(names.last() == n);
                assert(names[names.len() - 1] == n);
            }
            if v.contains(n) {
                let k = choose|k: int| 0 <= k < v.len() && v[k] == n;
                assert(w[k] == n);
            }
            if names.last() == n {
                assert(w[v.len() as int] == n);
            }
        } else {
            if names.last() == n {
                assert(n.len() > 0 && n[0] == '.');
            }
        }
    }
}

} // verus!
