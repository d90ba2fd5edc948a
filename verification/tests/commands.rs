use container_gateway::command::{CommandResult, Invocation};
use container_gateway::config::Config;
use container_gateway::docker_command::{
    docker_image_inspect, docker_image_inspect_command, docker_login, docker_login_command,
    docker_login_password, docker_login_password_command, docker_pull_image,
    docker_pull_image_command, docker_run_image, docker_run_image_command, RunSpec,
};
use container_gateway::response::{Failure, Status};

fn config() -> Config {
    Config {
        registry: "registry.example.com".to_string(),
        repository: "team/app".to_string(),
        port: 8080,
    }
}

fn docker(args: &[&str]) -> Invocation {
    Invocation {
        program: "docker".to_string(),
        args: args.iter().map(|arg| arg.to_string()).collect(),
    }
}

fn exited(success: bool, stdout: &[u8], stderr: &[u8]) -> Option<CommandResult> {
    Some(CommandResult { success, stdout: stdout.to_vec(), stderr: stderr.to_vec() })
}

fn internal(message: &str) -> Failure {
    Failure { status: Status::InternalServerError, message: message.to_string() }
}

#[test]
fn inspect_command_names_the_image() {
    assert_eq!(
        docker_image_inspect_command(&"registry.example.com/team/app:abcf123".to_string()),
        docker(&["image", "inspect", "registry.example.com/team/app:abcf123"])
    );
}

#[test]
fn inspect_hands_back_the_run() {
    let present = exited(true, b"[{}]\n", b"");
    assert_eq!(docker_image_inspect(present.clone()), Ok(present.unwrap()));
    let absent = exited(false, b"[]\n", b"Error: No such image\n");
    assert_eq!(docker_image_inspect(absent.clone()), Ok(absent.unwrap()));
}

#[test]
fn inspect_keeps_output_that_is_no_text() {
    let odd = exited(true, &[0xff, 0xfe], &[0x80]);
    assert_eq!(docker_image_inspect(odd.clone()), Ok(odd.unwrap()));
}

#[test]
fn inspect_that_could_not_start_fails() {
    assert_eq!(docker_image_inspect(None), Err(internal("docker image inspect: failed")));
}

#[test]
fn login_password_command_asks_the_credential_provider() {
    assert_eq!(
        docker_login_password_command(),
        docker(&[
            "run",
            "--rm",
            "amazon/aws-cli",
            "ecr",
            "get-login-password",
            "--region",
            "ap-northeast-1",
        ])
    );
}

#[test]
fn login_password_is_the_provider_output_as_it_stands() {
    assert_eq!(
        docker_login_password(exited(true, b"s3cr3t\n", b"warning\n")),
        Ok("s3cr3t\n".to_string())
    );
    assert_eq!(docker_login_password(exited(true, b"", b"")), Ok(String::new()));
}

#[test]
fn login_password_decodes_utf8() {
    // Two bytes for the first letter, three for the second, four for the third.
    let bytes = [0xc3, 0xa9, 0xe2, 0x82, 0xac, 0xf0, 0x9f, 0x90, 0xb3];
    let password = docker_login_password(exited(true, &bytes, b"")).unwrap();
    assert_eq!(password, "é€🐳");
    assert_eq!(password.chars().count(), 3);
}

#[test]
fn login_password_of_failed_provider() {
    assert_eq!(
        docker_login_password(exited(false, b"s3cr3t\n", b"denied\n")),
        Err(internal("aws ecr get-login-password: failed"))
    );
    // Output that is no text is never read when the provider failed.
    assert_eq!(
        docker_login_password(exited(false, &[0xff], &[0xff])),
        Err(internal("aws ecr get-login-password: failed"))
    );
}

#[test]
fn login_password_that_is_no_text_is_a_failed_provider() {
    for bytes in [
        vec![0xff],
        // A truncated sequence, an overlong encoding, a surrogate, and a
        // value above the last code point.
        vec![0xe2, 0x82],
        vec![0xc0, 0xaf],
        vec![0xed, 0xa0, 0x80],
        vec![0xf4, 0x90, 0x80, 0x80],
        vec![b'o', b'k', 0x80],
    ] {
        assert_eq!(
            docker_login_password(exited(true, &bytes, b"")),
            Err(internal("aws ecr get-login-password: failed"))
        );
    }
    // The error output is never read.
    assert_eq!(docker_login_password(exited(true, b"pw", &[0xff])), Ok("pw".to_string()));
}

#[test]
fn login_password_of_provider_that_could_not_start() {
    assert_eq!(docker_login_password(None), Err(internal("aws ecr get-login-password: failed")));
}

#[test]
fn login_command_holds_user_password_and_registry() {
    assert_eq!(
        docker_login_command(&config(), "s3cr3t\n"),
        docker(&["login", "--username", "AWS", "--password", "s3cr3t\n", "registry.example.com"])
    );
}

#[test]
fn login_succeeds_on_successful_exit() {
    assert_eq!(docker_login(exited(true, b"Login Succeeded\n", b"")), Ok(()));
}

#[test]
fn login_fails_on_failed_exit() {
    assert_eq!(docker_login(exited(false, b"", b"unauthorized\n")), Err(internal("docker login failed")));
}

#[test]
fn login_that_could_not_start_fails() {
    assert_eq!(docker_login(None), Err(internal("docker login: failed")));
}

#[test]
fn pull_command_names_the_image() {
    assert_eq!(
        docker_pull_image_command(&"registry.example.com/team/app:abcf123".to_string()),
        docker(&["pull", "registry.example.com/team/app:abcf123"])
    );
}

#[test]
fn pull_succeeds_on_successful_exit() {
    assert_eq!(
        docker_pull_image(exited(true, b"Status: Downloaded\n", b"")),
        Ok("Image successfully pulled".to_string())
    );
    // Error output that is no text is never read when the pull succeeded.
    assert_eq!(
        docker_pull_image(exited(true, b"", &[0xff])),
        Ok("Image successfully pulled".to_string())
    );
}

#[test]
fn pull_failure_carries_the_error_output() {
    assert_eq!(
        docker_pull_image(exited(false, b"ignored", b"pull access denied\n")),
        Err(internal("docker pull: failed -> pull access denied\n"))
    );
    assert_eq!(docker_pull_image(exited(false, b"", b"")), Err(internal("docker pull: failed -> ")));
}

#[test]
fn pull_failure_decodes_utf8() {
    let stderr = "no such tag: “abcf123” ✗\n";
    assert_eq!(
        docker_pull_image(exited(false, b"", stderr.as_bytes())),
        Err(internal("docker pull: failed -> no such tag: “abcf123” ✗\n"))
    );
}

#[test]
fn pull_failure_with_error_output_that_is_no_text() {
    for bytes in [vec![0xff], vec![b'n', b'o', 0xc3], vec![0xed, 0xa0, 0x80]] {
        assert_eq!(
            docker_pull_image(exited(false, b"", &bytes)),
            Err(internal("docker pull: failed -> "))
        );
    }
    // The standard output is never read.
    assert_eq!(
        docker_pull_image(exited(false, &[0xff], b"gone")),
        Err(internal("docker pull: failed -> gone"))
    );
}

#[test]
fn pull_that_could_not_start_fails() {
    assert_eq!(docker_pull_image(None), Err(internal("docker pull: failed")));
}

#[test]
fn run_spec_is_made_of_config_tag_and_host() {
    let spec = RunSpec::new(
        &config(),
        "abcf123.example.com",
        "abcf123",
        "registry.example.com/team/app:abcf123",
    );
    assert_eq!(
        spec,
        RunSpec {
            port: 8080,
            network: "docker.internal".to_string(),
            labels: vec![
                "proxy.enable=true".to_string(),
                "proxy.http.routers.abcf123.rule=Host(`abcf123.example.com`)".to_string(),
                "proxy.http.routers.abcf123.priority=50".to_string(),
            ],
            image: "registry.example.com/team/app:abcf123".to_string(),
        }
    );
}

#[test]
fn run_spec_does_not_transform_tag_or_host() {
    let spec = RunSpec::new(&config(), "Ab-1.Example.COM:8000", "Ab-1", "image");
    assert_eq!(spec.labels[1], "proxy.http.routers.Ab-1.rule=Host(`Ab-1.Example.COM:8000`)");
    assert_eq!(spec.labels[2], "proxy.http.routers.Ab-1.priority=50");
}

#[test]
fn run_spec_command_lists_every_label() {
    let spec = RunSpec {
        port: 1,
        network: "net".to_string(),
        labels: vec!["a=1".to_string(), "b=2".to_string()],
        image: "img".to_string(),
    };
    assert_eq!(
        spec.command(),
        docker(&["run", "-p", "1", "--net", "net", "--label", "a=1", "--label", "b=2", "img"])
    );
}

#[test]
fn run_spec_command_without_labels() {
    let spec = RunSpec {
        port: 65535,
        network: String::new(),
        labels: Vec::new(),
        image: "img".to_string(),
    };
    assert_eq!(spec.command(), docker(&["run", "-p", "65535", "--net", "", "img"]));
}

#[test]
fn run_command_for_a_request() {
    assert_eq!(
        docker_run_image_command(
            &config(),
            "abcf123.example.com",
            "abcf123",
            "registry.example.com/team/app:abcf123"
        ),
        docker(&[
            "run",
            "-p",
            "8080",
            "--net",
            "docker.internal",
            "--label",
            "proxy.enable=true",
            "--label",
            "proxy.http.routers.abcf123.rule=Host(`abcf123.example.com`)",
            "--label",
            "proxy.http.routers.abcf123.priority=50",
            "registry.example.com/team/app:abcf123",
        ])
    );
}

#[test]
fn run_confirms_a_started_container() {
    assert_eq!(docker_run_image(true), Ok("container launched".to_string()));
}

#[test]
fn run_that_could_not_start_fails() {
    assert_eq!(docker_run_image(false), Err(internal("docker run: failed")));
}
