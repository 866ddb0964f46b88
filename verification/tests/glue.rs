use redis_glue::Command;
use redis_glue::GlueError;
use redis_glue::Redis;
use redis_glue::RedisClient;
use redis_glue::RedisConfig;
use redis_glue::Reply;

#[test]
fn single_config_builds_a_client_on_its_url() {
    let config = RedisConfig::Single("redis://127.0.0.1/".to_owned());
    match config.connect() {
        Ok(RedisClient::Single { url, .. }) => assert_eq!(url, "redis://127.0.0.1/"),
        _ => panic!("a single-node configuration must yield a single-node client"),
    }
}

#[test]
fn cluster_config_builds_a_client_on_its_seeds() {
    // Three seed addresses parse; whether any of them is up plays no role
    // at this stage, so a down seed cannot fail the factory.
    let seeds = vec![
        "redis://127.0.0.1:7000/".to_owned(),
        "redis://127.0.0.1:7001/".to_owned(),
        "redis://127.0.0.1:7002/".to_owned(),
    ];
    let config = RedisConfig::Cluster(seeds.clone());
    match config.connect() {
        Ok(RedisClient::Cluster { nodes, .. }) => assert_eq!(nodes, seeds),
        _ => panic!("a cluster configuration must yield a cluster client"),
    }
}

#[test]
fn unparsable_single_url_is_a_connection_error() {
    let config = RedisConfig::Single("definitely not a url".to_owned());
    match config.connect() {
        Err(e) => assert_eq!(e, GlueError::Connection),
        Ok(_) => panic!("an unparsable URL must not yield a client"),
    }
}

#[test]
fn mixed_cluster_passwords_are_a_connection_error() {
    let config = RedisConfig::Cluster(vec![
        "redis://:first@127.0.0.1:7000/".to_owned(),
        "redis://:second@127.0.0.1:7001/".to_owned(),
    ]);
    match config.connect() {
        Err(e) => assert_eq!(e, GlueError::Connection),
        Ok(_) => panic!("differing passwords must not yield a client"),
    }
}

#[test]
fn facade_reports_unreachable_store_instead_of_aborting() {
    // Port 1 on the loopback has no listener, so the initial connect is
    // refused at once: the facade must report that, not abort.
    let outcome = Redis::new(RedisConfig::Single("redis://127.0.0.1:1/".to_owned()));
    match outcome {
        Err(e) => assert_eq!(e, GlueError::Connection),
        Ok(_) => panic!("no store listens there, so the facade must not come up"),
    }
}

#[test]
fn facade_reports_unparsable_url_instead_of_aborting() {
    let outcome = Redis::new(RedisConfig::Single(":// nonsense".to_owned()));
    match outcome {
        Err(e) => assert_eq!(e, GlueError::Connection),
        Ok(_) => panic!("an unparsable URL must not yield a facade"),
    }
}

#[test]
fn command_builder_keeps_name_and_argument_order() {
    let cmd = Command::new("SET").arg("testval").arg("4");
    assert_eq!(cmd.name, "SET");
    assert_eq!(cmd.args, vec!["testval".to_owned(), "4".to_owned()]);

    let get = Command::new("GET").arg("testval");
    assert_eq!(get.name, "GET");
    assert_eq!(get.args, vec!["testval".to_owned()]);
}

#[test]
fn status_reply_decodes_to_its_own_text() {
    let decoded = Reply::Status("PONG".to_owned()).into_string().unwrap();
    assert_eq!(decoded, "PONG");
}

#[test]
fn okay_reply_decodes_to_ok() {
    let decoded = Reply::Okay.into_string().unwrap();
    assert_eq!(decoded, "OK");
}

#[test]
fn data_reply_decodes_as_utf8() {
    let decoded = Reply::Data(b"4".to_vec()).into_string().unwrap();
    assert_eq!(decoded, "4");
}

#[test]
fn invalid_utf8_data_is_a_type_mismatch() {
    let outcome = Reply::Data(vec![0xff, 0xfe]).into_string();
    assert_eq!(outcome.unwrap_err(), GlueError::TypeMismatch);
}

#[test]
fn non_string_reply_is_a_type_mismatch() {
    assert_eq!(Reply::Nil.into_string().unwrap_err(), GlueError::TypeMismatch);
    assert_eq!(
        Reply::Bulk(vec![Reply::Nil]).into_string().unwrap_err(),
        GlueError::TypeMismatch
    );
}

#[test]
fn integer_reply_decodes_to_its_value() {
    assert_eq!(Reply::Int(7).into_int().unwrap(), 7);
    assert_eq!(Reply::Int(-3).into_int().unwrap(), -3);
}

#[test]
fn non_integer_reply_is_a_type_mismatch() {
    assert_eq!(
        Reply::Status("7".to_owned()).into_int().unwrap_err(),
        GlueError::TypeMismatch
    );
}

#[test]
fn data_reply_yields_its_bytes() {
    assert_eq!(Reply::Data(vec![1, 2, 3]).into_bytes().unwrap(), vec![1, 2, 3]);
    assert_eq!(Reply::Int(1).into_bytes().unwrap_err(), GlueError::TypeMismatch);
}

#[test]
fn every_reply_acknowledges_as_unit() {
    assert_eq!(Reply::Nil.into_unit().unwrap(), ());
    assert_eq!(Reply::Okay.into_unit().unwrap(), ());
}

#[test]
fn only_pong_confirms_liveness() {
    let pong: Result<Reply, GlueError> = Ok(Reply::Status("PONG".to_owned()));
    assert!(redis_glue::reply_confirms_liveness(&pong));

    let other: Result<Reply, GlueError> = Ok(Reply::Status("LOADING".to_owned()));
    assert!(!redis_glue::reply_confirms_liveness(&other));

    let okay: Result<Reply, GlueError> = Ok(Reply::Okay);
    assert!(!redis_glue::reply_confirms_liveness(&okay));

    let failed: Result<Reply, GlueError> = Err(GlueError::Transport);
    assert!(!redis_glue::reply_confirms_liveness(&failed));
}

#[test]
fn error_classes_describe_themselves() {
    assert_eq!(
        GlueError::Connection.describe(),
        "could not configure or open a connection"
    );
    assert_eq!(
        GlueError::TypeMismatch.describe(),
        "the reply does not have the requested shape"
    );
}
