//! A marker for values that have one owner at a time.

use vstd::prelude::*;

verus! {

/// The cell of std. It is held nowhere; its type serves as a marker, since a type with
/// a cell in it is not shared between threads.
#[verifier::external_type_specification]
#[verifier::external_body]
#[verifier::reject_recursive_types(T)]
pub struct ExCell<T: ?Sized>(core::cell::Cell<T>);

/// A field of this type keeps the value that holds it from being shared between
/// threads: no thread can watch key material while another overwrites it or moves a
/// nonce counter. The value can still be handed from one thread to another.
pub type NotShared = core::marker::PhantomData<core::cell::Cell<()>>;

} // verus!
