//! Foreign-key resolution.
//!
//! Every entity factory offers one operation, [`FactoryCreate::create`]. Before it
//! inserts its row, a factory resolves each foreign-key field in declaration
//! order with [`resolve_fk`]: a field left at its sentinel (and not opted out)
//! is filled with the key of a row that the child's factory creates first.
//! Nested creates carry their depth, and a chain deeper than [`MAX_DEPTH`]
//! fails fast instead of recursing without end.

use vstd::prelude::*;
use crate::sentinel::Sentinel;

verus! {

/// The deepest nesting of creates that resolution will start. A create at
/// depth `MAX_DEPTH` may not create children of its own.
pub const MAX_DEPTH: u32 = 64;

/// Why a create failed.
#[derive(Debug, Clone, PartialEq, Eq)]
pub enum FactoryError {
    /// The backend rejected or failed the insert of `entity`.
    Backend { entity: String, message: String },
    /// Resolving a field at `depth` would have nested one create too many;
    /// the dependency graph most likely has a cycle that no field breaks.
    DepthExceeded { depth: u32 },
}

/// Result of a create.
pub type FactoryResult<T> = Result<T, FactoryError>;

/// A factory that can persist the entity it describes through a backend handle
/// of type `Pool`.
///
/// `create` consumes the factory. It is expected to resolve its foreign-key
/// fields with [`resolve_fk`], passing on `depth`, and then insert the row.
/// `depth` is the number of creates that enclose this one: `0` for a call made
/// by a test, one more for each level of automatic creation.
pub trait FactoryCreate<Pool>: Sized where Pool: Sync {
    /// The persisted entity that `create` returns.
    type Entity;

    /// Inserts the row and returns the persisted entity.
    fn create(self, pool: &Pool, depth: u32) -> FactoryResult<Self::Entity>;
}

/// A foreign-key field holding `value` is filled automatically exactly when it
/// is not opted out and holds its sentinel.
pub open spec fn needs_creation<K: Sentinel>(value: K, no_default: bool) -> bool {
    !no_default && value.spec_is_sentinel()
}

/// What resolution does with one foreign-key field.
#[derive(Debug, Clone, Copy, PartialEq, Eq)]
pub enum FieldAction {
    /// Leave the field as it is; no child is created.
    Keep,
    /// Create the child, whose own create runs at `depth`.
    CreateChild { depth: u32 },
    /// The child would nest deeper than [`MAX_DEPTH`]: fail.
    TooDeep,
}

/// The action for a field whose value is unset or not (`unset`), opted out or
/// not (`no_default`), in a create running at `depth`.
pub open spec fn spec_field_action(unset: bool, no_default: bool, depth: u32) -> FieldAction {
    if no_default || !unset {
        FieldAction::Keep
    } else if depth >= MAX_DEPTH {
        FieldAction::TooDeep
    } else {
        FieldAction::CreateChild { depth: (depth + 1) as u32 }
    }
}

/// Decides what to do with a foreign-key field holding `value`, in a create
/// running at `depth`.
pub fn plan_field<K: Sentinel>(value: &K, no_default: bool, depth: u32) -> (r: FieldAction)
    ensures
        r == spec_field_action(value.spec_is_sentinel(), no_default, depth),
{
    if no_default {
        FieldAction::Keep
    } else if !value.is_sentinel() {
        FieldAction::Keep
    } else if depth >= MAX_DEPTH {
        FieldAction::TooDeep
    } else {
        FieldAction::CreateChild { depth: depth + 1 }
    }
}

/// Takes in the outcome of a child's create. On success the field gets the
/// key that `key_of` reads from the child entity, which is handed back; on
/// failure the field is left alone and the child's error is handed back as it
/// is.
pub fn apply_child_result<K, E, F: Fn(&E) -> K>(
    value: &mut K,
    child: FactoryResult<E>,
    key_of: F,
) -> (r: FactoryResult<E>)
    requires
        forall|e: &E| call_requires(key_of, (e,)),
    ensures
        r == child,
        match child {
            Ok(e) => call_ensures(key_of, (&e,), *final(value)),
            Err(_) => *final(value) == *old(value),
        },
{
    match child {
        Ok(e) => {
            let k = key_of(&e);
            *value = k;
            Ok(e)
        },
        Err(err) => Err(err),
    }
}

/// Resolves one foreign-key field of a factory whose create runs at `depth`.
///
/// - Opted out (`no_default`), or holding a value other than the sentinel: the
///   field is left as it is, no child is made, and the result is `Ok(None)`.
/// - Otherwise, at `depth >= MAX_DEPTH`: `Err(DepthExceeded)`, field unchanged.
/// - Otherwise the child factory from `make_child` creates its row at
///   `depth + 1`. On success the field gets `key_of` of the new entity, which is
///   returned in `Ok(Some(..))`; on failure the child's error is returned and
///   the field is unchanged.
pub fn resolve_fk<Pool, K, C, M, F>(
    value: &mut K,
    no_default: bool,
    pool: &Pool,
    depth: u32,
    make_child: M,
    key_of: F,
) -> (r: FactoryResult<Option<C::Entity>>)
    where
        Pool: Sync,
        K: Sentinel,
        C: FactoryCreate<Pool>,
        M: FnOnce() -> C,
        F: Fn(&C::Entity) -> K,
    requires
        call_requires(make_child, ()),
        forall|e: &C::Entity| call_requires(key_of, (e,)),
    ensures
        !needs_creation(*old(value), no_default) ==> r == Ok::<Option<C::Entity>, FactoryError>(None) && *final(value) == *old(value),
        needs_creation(*old(value), no_default) && depth >= MAX_DEPTH ==> r == Err::<Option<C::Entity>, FactoryError>(FactoryError::DepthExceeded { depth }) && *final(value) == *old(value),
        needs_creation(*old(value), no_default) && depth < MAX_DEPTH ==> match r {
            Ok(Some(e)) => call_ensures(key_of, (&e,), *final(value)),
            Ok(None) => false,
            Err(_) => *final(value) == *old(value),
        },
        r is Ok && !no_default && (forall|e: &C::Entity, k: K| call_ensures(key_of, (e,), k) ==> !k.spec_is_sentinel()) ==> !final(value).spec_is_sentinel(),
{
    match plan_field(value, no_default, depth) {
        FieldAction::Keep => Ok(None),
        FieldAction::TooDeep => Err(FactoryError::DepthExceeded { depth }),
        FieldAction::CreateChild { depth: child_depth } => {
            let child = make_child();
            let created = child.create(pool, child_depth);
            match apply_child_result(value, created, key_of) {
                Ok(e) => Ok(Some(e)),
                Err(err) => Err(err),
            }
        },
    }
}

} // verus!
