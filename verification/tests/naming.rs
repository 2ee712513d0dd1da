use release_packer::command::{
    build, clean, create_release, make_staging, metadata, remove_staging, upload, Invocation,
};
use release_packer::naming::{archive_path_of, binary_path_of, staging_dir_name};

fn invocation(program: &str, args: &[&str]) -> Invocation {
    Invocation {
        program: program.to_string(),
        args: args.iter().map(|a| a.to_string()).collect(),
    }
}

#[test]
fn archive_path_follows_the_template() {
    assert_eq!(
        archive_path_of("ocp", "0.1.0", "x86_64-apple-darwin"),
        "gh-tmp/ocp-0.1.0-x86_64-apple-darwin.tar.gz"
    );
    assert_eq!(
        archive_path_of("my-tool", "12.0.3-rc1", "aarch64-unknown-linux-gnu"),
        "gh-tmp/my-tool-12.0.3-rc1-aarch64-unknown-linux-gnu.tar.gz"
    );
}

#[test]
fn archive_path_of_any_target_follows_the_template() {
    for target in ["", "a", "x86_64-pc-windows-msvc", "wasm32-wasi", "tärget"] {
        let expected = format!("{}/{}-{}-{}.tar.gz", staging_dir_name(), "ocp", "0.1.0", target);
        assert_eq!(archive_path_of("ocp", "0.1.0", target), expected);
    }
}

#[test]
fn archive_paths_of_different_targets_differ() {
    assert_ne!(
        archive_path_of("ocp", "0.1.0", "x86_64-apple-darwin"),
        archive_path_of("ocp", "0.1.0", "aarch64-apple-darwin")
    );
}

#[test]
fn binary_path_is_in_the_target_directory() {
    assert_eq!(
        binary_path_of("x86_64-apple-darwin", "ocp"),
        "target/x86_64-apple-darwin/release/ocp"
    );
}

#[test]
fn staging_directory_is_gh_tmp() {
    assert_eq!(staging_dir_name(), "gh-tmp");
}

#[test]
fn clean_command_line() {
    assert_eq!(clean(), invocation("cargo", &["clean"]));
}

#[test]
fn build_command_line() {
    assert_eq!(
        build("x86_64-apple-darwin"),
        invocation("cargo", &["build", "--release", "--target=x86_64-apple-darwin"])
    );
}

#[test]
fn metadata_command_line() {
    assert_eq!(metadata(), invocation("cargo", &["pkgid"]));
}

#[test]
fn remove_staging_command_line() {
    assert_eq!(remove_staging(), invocation("rm", &["-r", "-f", "gh-tmp"]));
}

#[test]
fn make_staging_command_line() {
    assert_eq!(make_staging(), invocation("mkdir", &["gh-tmp"]));
}

#[test]
fn create_release_command_line() {
    assert_eq!(create_release("0.1.0"), invocation("gh", &["release", "create", "0.1.0"]));
}

#[test]
fn upload_command_line() {
    assert_eq!(
        upload("0.1.0", "gh-tmp/ocp-0.1.0-x86_64-apple-darwin.tar.gz"),
        invocation(
            "gh",
            &[
                "release",
                "upload",
                "0.1.0",
                "gh-tmp/ocp-0.1.0-x86_64-apple-darwin.tar.gz",
                "--clobber"
            ]
        )
    );
}
