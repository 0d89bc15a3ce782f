use chiliseed::remote::{
    build_command, make_deployment_dir_command, next_chunk_len, remote_package_path, unpack_command,
    worker_address,
    BUILD_WORKER_USER, OUTPUT_CHUNK_BYTES, PACKAGE_MODE, UPLOAD_CHUNK_BYTES,
};

#[test]
fn fixed_values() {
    assert_eq!(BUILD_WORKER_USER, "ubuntu");
    assert_eq!(PACKAGE_MODE, 0o644);
    assert_eq!(UPLOAD_CHUNK_BYTES, 1000);
    assert_eq!(OUTPUT_CHUNK_BYTES, 10);
}

#[test]
fn worker_address_uses_the_ssh_port() {
    assert_eq!(worker_address("10.1.2.3"), "10.1.2.3:22");
    assert_eq!(worker_address("worker.example.com"), "worker.example.com:22");
}

#[test]
fn package_is_uploaded_to_tmp() {
    assert_eq!(remote_package_path("build_abc.tar.gz"), "/tmp/build_abc.tar.gz");
}

#[test]
fn deployment_dir_command() {
    assert_eq!(make_deployment_dir_command(), "mkdir -p /home/ubuntu/deployment");
}

#[test]
fn unpack_command_untars_into_the_deployment_dir() {
    assert_eq!(
        unpack_command("build_abc.tar.gz"),
        "tar -xzvf /tmp/build_abc.tar.gz -C /home/ubuntu/deployment"
    );
}

#[test]
fn build_command_without_arguments() {
    assert_eq!(build_command("abc1234", &Vec::new()), "/home/ubuntu/chiliseed-build-worker -v abc1234");
}

#[test]
fn build_command_hands_on_each_build_argument_in_order() {
    let args = vec!["KEY=value".to_string(), "OTHER=1".to_string()];
    assert_eq!(
        build_command("abc1234", &args),
        "/home/ubuntu/chiliseed-build-worker -v abc1234 --build-arg KEY=value --build-arg OTHER=1"
    );
    assert_eq!(
        build_command("v", &vec!["A=b c".to_string()]),
        "/home/ubuntu/chiliseed-build-worker -v v --build-arg A=b c"
    );
}

#[test]
fn next_chunk_is_what_is_left_up_to_a_thousand_bytes() {
    assert_eq!(next_chunk_len(0, 0), 0);
    assert_eq!(next_chunk_len(1, 0), 1);
    assert_eq!(next_chunk_len(999, 0), 999);
    assert_eq!(next_chunk_len(1000, 0), 1000);
    assert_eq!(next_chunk_len(1001, 0), 1000);
    assert_eq!(next_chunk_len(1001, 1000), 1);
    assert_eq!(next_chunk_len(1001, 1001), 0);
    assert_eq!(next_chunk_len(1001, 2000), 0);
    assert_eq!(next_chunk_len(u64::MAX, 0), 1000);
    assert_eq!(next_chunk_len(u64::MAX, u64::MAX - 5), 5);
}

#[test]
fn a_package_is_sent_whole_in_bounded_chunks() {
    for size in [0u64, 1, 999, 1000, 1001, 2500, 10_000] {
        let mut sent = 0u64;
        let mut chunks = 0u64;
        loop {
            let chunk = next_chunk_len(size, sent);
            if chunk == 0 {
                break;
            }
            assert!(chunk <= UPLOAD_CHUNK_BYTES);
            sent += chunk;
            chunks += 1;
        }
        assert_eq!(sent, size);
        assert_eq!(chunks, (size + 999) / 1000);
    }
}
