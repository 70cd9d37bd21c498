//! The boundary to code that is not verified here: the Python interpreter,
//! reached through `pyo3`, and one function of the standard library.
//!
//! Everything in this module is trusted: the types are opaque to the verifier
//! and the contracts below are taken from the documentation and source of
//! the code they describe, not proved.  A `Py<T>` is a counted pointer to one
//! Python object; two `Py<T>` values that point to the same object are equal.
use std::fmt::Write;
use std::hash::{Hash, Hasher};
use vstd::prelude::*;

verus! {

/// `pyo3::Py<T>`: an owning, reference-counted pointer to a Python object.
#[verifier::external_type_specification]
#[verifier::external_body]
#[verifier::reject_recursive_types(T)]
pub struct ExPy<T>(pyo3::Py<T>);

/// `pyo3::PyAny`: a Python object of any type.
#[verifier::external_type_specification]
#[verifier::external_body]
pub struct ExPyAny(pyo3::PyAny);

/// `pyo3::types::PyType`: a Python type object.
#[verifier::external_type_specification]
#[verifier::external_body]
pub struct ExPyType(pyo3::types::PyType);

/// `pyo3::Python<'py>`: the token that proves the interpreter lock is held.
#[verifier::external_type_specification]
#[verifier::external_body]
pub struct ExPython<'py>(pyo3::Python<'py>);

/// `pyo3::PyErr`: a raised Python exception.
#[verifier::external_type_specification]
#[verifier::external_body]
pub struct ExPyErr(pyo3::PyErr);

/// `pyo3::Py::clone_ref` makes another pointer to the same object and raises
/// its reference count; the result is therefore equal to the receiver.
pub assume_specification<T>[ pyo3::Py::<T>::clone_ref ](
    obj: &pyo3::Py<T>,
    py: pyo3::Python<'_>,
) -> (shared: pyo3::Py<T>)
    ensures
        shared == *obj,
;

/// `Clone` for `pyo3::Py<T>` copies the pointer and raises the reference count
/// of the object, at once or when the interpreter lock is next taken; the
/// result is therefore equal to the receiver.
pub assume_specification<T>[ <pyo3::Py<T> as Clone>::clone ](obj: &pyo3::Py<T>) -> (shared:
    pyo3::Py<T>)
    ensures
        shared == *obj,
;

/// `pyo3::Py::call0` calls the object without arguments.  What comes back is
/// decided by the code that runs, so nothing is promised of it; the call
/// returns when that code does, and a panic that the code carries out of a
/// Rust function it called is passed on as a panic.
pub assume_specification<T>[ pyo3::Py::<T>::call0 ](
    obj: &pyo3::Py<T>,
    py: pyo3::Python<'_>,
) -> (outcome: Result<pyo3::Py<pyo3::PyAny>, pyo3::PyErr>)
;

/// The address of the Python type object that a handle points to: what
/// `pyo3::Py::as_ptr` returns for the handle, read as a number.  A handle is
/// that pointer and nothing else, so the address is a function of the
/// handle's value.
pub uninterp spec fn address_of(type_object: pyo3::Py<pyo3::types::PyType>) -> usize;

/// `pyo3::Py::as_ptr`, read as a number: the address of the object that the
/// handle points to.  Handles to one object have one address, and a handle
/// with the same address points to the same object, so it is an equal handle.
#[verifier::external_body]
pub(crate) fn object_address(obj: &pyo3::Py<pyo3::types::PyType>) -> (address: usize)
    ensures
        address == address_of(*obj),
        forall|other: pyo3::Py<pyo3::types::PyType>|
            #[trigger] address_of(other) == address ==> other == *obj,
{
    obj.as_ptr() as usize
}

/// `pyo3::types::PyType::name` reads the `__qualname__` attribute of the type
/// object.  The lookup runs Python code, so nothing is promised of its
/// outcome; a panic that the code carries out of a Rust function it called is
/// passed on as a panic.
#[verifier::external_body]
pub(crate) fn qualified_name(
    ty: &pyo3::Py<pyo3::types::PyType>,
    py: pyo3::Python<'_>,
) -> (lookup: Result<String, pyo3::PyErr>) {
    match ty.as_ref(py).name() {
        Ok(name) => Ok(name.to_string()),
        Err(raised) => Err(raised),
    }
}

/// The `Display` rendering of a `pyo3::PyErr`: the exception's type name and
/// its `str()`.  Rendering runs Python code, so nothing is promised of the
/// text; where rendering fails part-way, the text written so far is returned.
/// Rendering takes the interpreter lock itself; the token is asked for so that
/// the interpreter is known to be running.  A panic that the code carries out
/// of a Rust function it called is passed on as a panic.
#[verifier::external_body]
pub(crate) fn error_text(err: &pyo3::PyErr, _py: pyo3::Python<'_>) -> (text: String) {
    let mut text = String::new();
    let _ = write!(text, "{}", err);
    text
}

/// `Hash` for `usize` feeds the number to the hasher.  What the hasher makes
/// of it is the hasher's own business, so nothing is promised.
pub assume_specification<H: Hasher>[ <usize as Hash>::hash::<H> ](value: &usize, state: &mut H)
;

} // verus!
