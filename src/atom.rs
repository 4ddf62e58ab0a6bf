use vstd::prelude::*;

verus! {

/// Token handed to an atom-ref initialiser.
pub struct AtomRefBuilder;

/// An atom whose value is built on first use by calling the function.
pub type AtomRef<T> = fn(AtomRefBuilder) -> T;

/// Builds the initial value of an atom-ref: the initialiser's result on a
/// fresh builder token.
pub fn init_atom_ref<V, F: FnOnce(AtomRefBuilder) -> V>(atom: F) -> (v: V)
    requires
        atom.requires((AtomRefBuilder,)),
    ensures
        atom.ensures((AtomRefBuilder,), v),
{
    atom(AtomRefBuilder)
}

} // verus!
