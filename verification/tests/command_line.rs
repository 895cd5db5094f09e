use nslaunch::command::command_from_args;
use nslaunch::runner::exec_image;

#[test]
fn empty_invocation_is_rejected() {
    // Zero trailing arguments: the launch fails before any process
    // creation, so no command is ever produced.
    let args = vec![String::from("launcher")];
    assert!(command_from_args(&args).is_none());
    let no_args: Vec<String> = Vec::new();
    assert!(command_from_args(&no_args).is_none());
}

#[test]
fn command_is_the_trailing_arguments() {
    let args = vec![
        String::from("launcher"),
        String::from("sleep"),
        String::from("5"),
    ];
    let cmd = command_from_args(&args).unwrap();
    assert_eq!(cmd.items, vec![String::from("sleep"), String::from("5")]);
}

#[test]
fn echo_hello_world_argv_is_exact() {
    // Argument fidelity: the target's observed argument vector is
    // exactly ["echo", "hello", "world"], with argv[0] the executable.
    let args = vec![
        String::from("launcher"),
        String::from("echo"),
        String::from("hello"),
        String::from("world"),
    ];
    let cmd = command_from_args(&args).unwrap();
    let image = exec_image(&cmd);
    assert_eq!(image.program, String::from("echo"));
    assert_eq!(
        image.argv,
        vec![String::from("echo"), String::from("hello"), String::from("world")]
    );
    assert_eq!(image.argv[0], image.program);
}
