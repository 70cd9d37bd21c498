use dioxide_core::{ContainerError, Provider, RustContainer, TypeKey};
use pyo3::types::{PyModule, PyType};
use pyo3::{IntoPy, Py, PyAny, Python};

fn with_python<F: FnOnce(Python<'_>)>(body: F) {
    pyo3::prepare_freethreaded_python();
    Python::with_gil(body)
}

fn load<'py>(py: Python<'py>, code: &str, module: &str) -> &'py PyModule {
    PyModule::from_code(py, code, &format!("{module}.py"), module).unwrap()
}

fn class_of(module: &PyModule, name: &str) -> Py<PyType> {
    let class: &PyType = module.getattr(name).unwrap().downcast().unwrap();
    class.into()
}

#[test]
fn message_of_dependency_not_registered() {
    with_python(|py| {
        let error = ContainerError::DependencyNotRegistered {
            identity: 7,
            name: String::from("Database"),
        };
        assert_eq!(error.message(py), "Dependency not registered: Database");
        assert_eq!(error.message_with("ignored"), "Dependency not registered: Database");
        assert_eq!(error.name(), "Database");
        assert_eq!(error.identity(), 7);
    });
}

#[test]
fn message_of_provider_registration_failed() {
    with_python(|py| {
        let error = ContainerError::ProviderRegistrationFailed {
            identity: 8,
            name: String::from("Database"),
            reason: String::from("not callable"),
        };
        assert_eq!(error.message(py), "Provider registration failed: Database - not callable");
        assert_eq!(
            error.message_with("ignored"),
            "Provider registration failed: Database - not callable"
        );
        assert_eq!(error.name(), "Database");
        assert_eq!(error.identity(), 8);
    });
}

#[test]
fn message_of_duplicate_registration() {
    with_python(|py| {
        let error = ContainerError::DuplicateRegistration {
            identity: 9,
            name: String::from("Database"),
        };
        assert_eq!(error.message(py), "Duplicate provider registration: Database");
        assert_eq!(error.message_with(""), "Duplicate provider registration: Database");
        assert_eq!(error.name(), "Database");
        assert_eq!(error.identity(), 9);
    });
}

#[test]
fn message_of_construction_failed() {
    with_python(|py| {
        let error = ContainerError::ConstructionFailed {
            identity: 10,
            name: String::from("Database"),
            cause: pyo3::exceptions::PyValueError::new_err("boom"),
        };
        assert_eq!(error.message(py), "Python error: ValueError: boom");
        assert_eq!(error.message_with("ValueError: boom"), "Python error: ValueError: boom");
        assert_eq!(error.message_with(""), "Python error: ");
        assert_eq!(error.name(), "Database");
        assert_eq!(error.identity(), 10);
    });
}

#[test]
fn message_of_empty_names() {
    let error = ContainerError::DuplicateRegistration { identity: 0, name: String::new() };
    assert_eq!(error.message_with(""), "Duplicate provider registration: ");
    let error = ContainerError::DependencyNotRegistered { identity: 0, name: String::new() };
    assert_eq!(error.message_with(""), "Dependency not registered: ");
    let error = ContainerError::ProviderRegistrationFailed {
        identity: 0,
        name: String::new(),
        reason: String::new(),
    };
    assert_eq!(error.message_with(""), "Provider registration failed:  - ");
}

#[test]
fn errors_of_the_container_carry_the_type_name() {
    with_python(|py| {
        let code = "
class Database: pass

class Broken:
    def __init__(self):
        raise RuntimeError('no connection')
";
        let module = load(py, code, "errors_container");
        let mut container = RustContainer::new();
        let key = TypeKey::new(class_of(module, "Database"));

        let missing = container.resolve(py, &key).unwrap_err();
        assert_eq!(missing.message(py), "Dependency not registered: Database");
        assert_eq!(missing.identity(), key.identity());

        container.register_class(py, key.clone(), class_of(module, "Broken")).unwrap();
        let duplicate = container
            .register_instance(py, key.clone(), 1i64.into_py(py))
            .unwrap_err();
        assert_eq!(duplicate.message(py), "Duplicate provider registration: Database");
        assert_eq!(duplicate.identity(), key.identity());

        let failed = container.resolve(py, &key).unwrap_err();
        assert_eq!(failed.name(), "Database");
        assert_eq!(failed.identity(), key.identity());
        assert_eq!(failed.message(py), "Python error: RuntimeError: no connection");
    });
}

#[test]
fn constructed_keeps_the_value_or_wraps_the_exception() {
    with_python(|py| {
        let module = load(py, "class Database: pass\n", "errors_constructed");
        let key = TypeKey::new(class_of(module, "Database"));
        let value: Py<PyAny> = 5i64.into_py(py);
        let kept = Provider::constructed(Ok(value.clone_ref(py)), py, &key).unwrap();
        assert!(kept.is(&value));

        let raised = pyo3::exceptions::PyTypeError::new_err("needs an argument");
        let raised_value: Py<PyAny> = raised.value(py).into_py(py);
        match Provider::constructed(Err(raised), py, &key) {
            Err(ContainerError::ConstructionFailed { identity, name, cause }) => {
                assert_eq!(identity, key.identity());
                assert_eq!(name, "Database");
                assert!(cause.value(py).is(&raised_value));
            },
            _ => panic!("the exception was not wrapped"),
        }
    });
}

#[test]
fn instance_provider_hands_out_the_object_itself() {
    with_python(|py| {
        let module = load(py, "class Database: pass\n", "errors_provide");
        let key = TypeKey::new(class_of(module, "Database"));
        let value: Py<PyAny> = vec![1i64, 2, 3].into_py(py);
        let provider = Provider::Instance(value.clone_ref(py));
        let given = provider.provide(py, &key).unwrap();
        assert!(given.is(&value));
        let class = Provider::Class(class_of(module, "Database"));
        let built = class.provide(py, &key).unwrap();
        assert!(built.as_ref(py).is_instance(module.getattr("Database").unwrap()).unwrap());
    });
}
