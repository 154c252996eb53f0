use smearor_wrot::socket::Socket;
use std::path::Path;
use std::path::PathBuf;

#[test]
fn test_socket_from_pathbuf() {
    let path = PathBuf::from("/tmp/wayland-0");
    let socket = Socket::from(path);
    assert_eq!(socket.0, PathBuf::from("/tmp/wayland-0"));
}

#[test]
fn test_socket_deref() {
    let socket = Socket::from(PathBuf::from("/tmp/wayland-0"));
    let path: &Path = &*socket;
    assert_eq!(path, Path::new("/tmp/wayland-0"));
}

#[test]
fn test_socket_as_ref_str() {
    let socket = Socket::from(PathBuf::from("/tmp/wayland-0"));
    let s: &str = socket.as_ref();
    assert_eq!(s, "/tmp/wayland-0");
}

#[test]
fn test_socket_display() {
    let socket = Socket::from(PathBuf::from("/tmp/wayland-0"));
    assert_eq!(socket.to_display_string(), "/tmp/wayland-0");
}

#[test]
fn socket_clone_keeps_the_path() {
    let socket = Socket::from(PathBuf::from("/run/user/1000/wayland-1"));
    let copy = socket.clone();
    assert_eq!(copy.0, socket.0);
    let s: &str = copy.as_ref();
    assert_eq!(s, "/run/user/1000/wayland-1");
}

#[test]
fn socket_text_of_a_unicode_path() {
    let socket = Socket::from(PathBuf::from("/run/user/1000/wayland-ü"));
    let s: &str = socket.as_ref();
    assert_eq!(s, "/run/user/1000/wayland-ü");
    assert_eq!(socket.to_display_string(), "/run/user/1000/wayland-ü");
    let path: &Path = &*socket;
    assert_eq!(path.to_str(), Some("/run/user/1000/wayland-ü"));
}
