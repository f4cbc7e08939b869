use backend_supervisor::interpreter::{
    default_interpreter, interpreter_override_var, preferred_interpreter, venv_interpreter,
    venv_root_var, InterpreterProbe, Platform,
};

fn bare_probe() -> InterpreterProbe {
    InterpreterProbe {
        override_path: None,
        override_exists: false,
        venv_root: None,
        venv_interpreter_exists: false,
    }
}

#[test]
fn unix_default_with_nothing_set_is_exactly_python3() {
    let r = preferred_interpreter(&bare_probe(), Platform::Unix);
    assert_eq!(r, "python3");
}

#[test]
fn windows_default_with_nothing_set_is_python_exe() {
    let r = preferred_interpreter(&bare_probe(), Platform::Windows);
    assert_eq!(r, "python.exe");
}

#[test]
fn existing_override_wins_even_with_active_venv() {
    let probe = InterpreterProbe {
        override_path: Some("/opt/custom/py".to_string()),
        override_exists: true,
        venv_root: Some("/srv/venv".to_string()),
        venv_interpreter_exists: true,
    };
    let r = preferred_interpreter(&probe, Platform::Unix);
    assert_eq!(r, "/opt/custom/py");
}

#[test]
fn missing_override_falls_through_to_venv() {
    let probe = InterpreterProbe {
        override_path: Some("/no/such/interpreter".to_string()),
        override_exists: false,
        venv_root: Some("/srv/venv".to_string()),
        venv_interpreter_exists: true,
    };
    let r = preferred_interpreter(&probe, Platform::Unix);
    assert_eq!(r, "/srv/venv/bin/python");
}

#[test]
fn missing_override_and_missing_venv_fall_through_to_default() {
    let probe = InterpreterProbe {
        override_path: Some("/no/such/interpreter".to_string()),
        override_exists: false,
        venv_root: Some("/srv/venv".to_string()),
        venv_interpreter_exists: false,
    };
    let r = preferred_interpreter(&probe, Platform::Unix);
    assert_eq!(r, "python3");
}

#[test]
fn venv_interpreter_paths_follow_platform_conventions() {
    assert_eq!(venv_interpreter("/srv/venv", Platform::Unix), "/srv/venv/bin/python");
    assert_eq!(
        venv_interpreter("/srv/venv", Platform::Windows),
        "/srv/venv/Scripts/python.exe"
    );
}

#[test]
fn default_interpreter_names() {
    assert_eq!(default_interpreter(Platform::Unix), "python3");
    assert_eq!(default_interpreter(Platform::Windows), "python.exe");
}

#[test]
fn resolver_variable_names() {
    assert_eq!(interpreter_override_var(), "TRADINGAGENTS_PYTHON");
    assert_eq!(venv_root_var(), "VIRTUAL_ENV");
}
