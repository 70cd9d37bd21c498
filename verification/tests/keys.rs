use dioxide_core::{RustContainer, TypeKey};
use pyo3::types::{PyModule, PyType};
use pyo3::{IntoPy, Py, PyAny, Python};
use std::collections::hash_map::DefaultHasher;
use std::collections::HashSet;
use std::hash::{Hash, Hasher};

fn with_python<F: FnOnce(Python<'_>)>(body: F) {
    pyo3::prepare_freethreaded_python();
    Python::with_gil(body)
}

fn load<'py>(py: Python<'py>, code: &str, module: &str) -> &'py PyModule {
    PyModule::from_code(py, code, &format!("{module}.py"), module).unwrap()
}

fn class_of(module: &PyModule, name: &str) -> Py<PyType> {
    let class: &PyType = module.getattr(name).unwrap().downcast().unwrap();
    class.into()
}

fn hash_of(key: &TypeKey) -> u64 {
    let mut hasher = DefaultHasher::new();
    key.hash(&mut hasher);
    hasher.finish()
}

const SERVICES: &str = "
class Service: pass

class Outer:
    class Inner: pass

class Meta(type):
    def __getattribute__(cls, name):
        if name == '__qualname__':
            raise RuntimeError('no name')
        return super().__getattribute__(name)

class Nameless(metaclass=Meta): pass

class OddMeta(type):
    def __getattribute__(cls, name):
        if name == '__qualname__':
            return 42
        return super().__getattribute__(name)

class Odd(metaclass=OddMeta): pass
";

#[test]
fn keys_of_one_type_are_equal() {
    with_python(|py| {
        let module = load(py, SERVICES, "keys_equal");
        let one = TypeKey::new(class_of(module, "Service"));
        let two = TypeKey::new(class_of(module, "Service"));
        assert!(one == two);
        assert_eq!(one.identity(), two.identity());
        assert_eq!(hash_of(&one), hash_of(&two));
        let copy = one.clone();
        assert!(copy == one);
        assert_eq!(copy.identity(), one.identity());
        assert_eq!(copy.name(py), "Service");
    });
}

#[test]
fn keys_of_different_types_differ() {
    with_python(|py| {
        let module = load(py, SERVICES, "keys_differ");
        let service = TypeKey::new(class_of(module, "Service"));
        let outer = TypeKey::new(class_of(module, "Outer"));
        assert!(service != outer);
        assert_ne!(service.identity(), outer.identity());

        let mut seen = HashSet::new();
        assert!(seen.insert(service.clone()));
        assert!(seen.insert(outer));
        assert!(!seen.insert(service));
        assert_eq!(seen.len(), 2);
    });
}

#[test]
fn types_of_one_name_are_different_keys() {
    with_python(|py| {
        let here = load(py, "class Service: pass\n", "keys_same_name_here");
        let there = load(py, "class Service: pass\n", "keys_same_name_there");
        let one = TypeKey::new(class_of(here, "Service"));
        let two = TypeKey::new(class_of(there, "Service"));
        assert_eq!(one.name(py), two.name(py));
        assert!(one != two);
        assert_ne!(one.identity(), two.identity());

        let mut container = RustContainer::new();
        let first: Py<PyAny> = "here".into_py(py);
        let second: Py<PyAny> = "there".into_py(py);
        container.register_instance(py, one.clone(), first).unwrap();
        container.register_instance(py, two.clone(), second).unwrap();
        assert_eq!(container.len(), 2);
        assert_eq!(container.resolve(py, &one).unwrap().extract::<String>(py).unwrap(), "here");
        assert_eq!(container.resolve(py, &two).unwrap().extract::<String>(py).unwrap(), "there");
    });
}

#[test]
fn identity_is_that_of_the_type_object() {
    with_python(|py| {
        let module = load(py, SERVICES, "keys_identity");
        let class = class_of(module, "Service");
        let key = TypeKey::new(class.clone_ref(py));
        assert_eq!(key.identity(), class.as_ptr() as usize);
    });
}

#[test]
fn name_is_the_qualified_name() {
    with_python(|py| {
        let module = load(py, SERVICES, "keys_name");
        assert_eq!(TypeKey::new(class_of(module, "Service")).name(py), "Service");
        let outer: &PyType = module.getattr("Outer").unwrap().downcast().unwrap();
        let inner: &PyType = outer.getattr("Inner").unwrap().downcast().unwrap();
        assert_eq!(TypeKey::new(inner.into()).name(py), "Outer.Inner");
        let int_type: Py<PyType> = py.get_type::<pyo3::types::PyLong>().into();
        assert_eq!(TypeKey::new(int_type).name(py), "int");
    });
}

#[test]
fn name_is_unknown_where_the_interpreter_cannot_tell() {
    with_python(|py| {
        let module = load(py, SERVICES, "keys_nameless");
        assert_eq!(TypeKey::new(class_of(module, "Nameless")).name(py), "<unknown>");
        assert_eq!(TypeKey::new(class_of(module, "Odd")).name(py), "<unknown>");
    });
}

#[test]
fn name_or_unknown_on_each_outcome() {
    with_python(|_py| {
        assert_eq!(TypeKey::name_or_unknown(Ok(String::from("Service"))), "Service");
        assert_eq!(TypeKey::name_or_unknown(Ok(String::new())), "");
        let raised = pyo3::exceptions::PyAttributeError::new_err("no such attribute");
        assert_eq!(TypeKey::name_or_unknown(Err(raised)), "<unknown>");
    });
}
