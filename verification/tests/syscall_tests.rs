use rustux::syscall::{
    user_echo_output, MAX_SYSCALLS, STDERR_FD, STDIN_FD, STDOUT_FD, SYS_EXIT, SYS_READ, SYS_WRITE, USER_GREETING,
};

#[test]
fn syscall_test_constants() {
    assert_eq!(SYS_WRITE, 1);
    assert_eq!(SYS_READ, 2);
    assert_eq!(SYS_EXIT, 60);
    assert_eq!(STDIN_FD, 0);
    assert_eq!(STDOUT_FD, 1);
    assert_eq!(STDERR_FD, 2);
}

#[test]
fn test_max_syscalls() {
    assert_eq!(MAX_SYSCALLS, 128);
}

#[test]
fn user_program_echo_output() {
    assert_eq!(USER_GREETING.to_vec(), b"hello\n".to_vec());
    let mut buffer = [0u8; 64];
    buffer[..3].copy_from_slice(b"abc");
    assert_eq!(user_echo_output(&buffer, 3), b"You typed: abc\n".to_vec());
    assert!(user_echo_output(&buffer, 0).is_empty());
}
