use bee::error::{
    CHANNEL_CLOSE, CHANNEL_RECV, CHANNEL_SEND, INVALID_AUTH, INVALID_DATABASE, INVALID_INDEX,
    INVALID_NOT_SUPPORT, INVALID_PARAM, INVALID_PATH, INVALID_TYPE, INVALID_URL, INVALID_UTF8,
    IO_ADDR_INUSE, IO_ADDR_NOT_AVAILABLE, IO_ALREADY_EXISTS, IO_BROKEN_PIPE,
    IO_CONNECTION_ABORTED, IO_CONNECTION_REFUSED, IO_CONNECTION_RESET, IO_INTERRUPTED,
    IO_INVALID_DATA, IO_INVALID_INPUT, IO_NOTFOUND, IO_NOT_CONNECTED, IO_NOT_CONNECTED_HOST,
    IO_PERMISSION_DENIED, IO_TIMED_OUT, IO_UNEXPECTED_EOF, IO_WOULD_BLOCK, IO_WRITE_ZERO,
    OS_SYSTEM, SQL, SQL_CONNECTION_NUM_LIMIT, WEB3, WEB_CONTRACT,
};
use bee::error::IoErrorKind;
use bee::Error;

#[test]
fn error_test() {
    let err = Error::new(6150, "");
    println!("err - {}", err.to_text());

    println!("INVALID_TYPE|{}", INVALID_TYPE);
    println!("INVALID_UTF8|{}", INVALID_UTF8);
    println!("INVALID_PATH|{}", INVALID_PATH);
    println!("INVALID_INDEX|{}", INVALID_INDEX);
    println!("INVALID_PARAM|{}", INVALID_PARAM);
    println!("INVALID_NOT_SUPPORT|{}", INVALID_NOT_SUPPORT);
    println!("INVALID_AUTH|{}", INVALID_AUTH);
    println!("INVALID_DATABASE|{}", INVALID_DATABASE);
    println!("INVALID_URL|{}", INVALID_URL);

    println!("IO_NOTFOUND|{}", IO_NOTFOUND);
    println!("IO_PERMISSION_DENIED|{}", IO_PERMISSION_DENIED);
    println!("IO_CONNECTION_REFUSED|{}", IO_CONNECTION_REFUSED);
    println!("IO_CONNECTION_RESET|{}", IO_CONNECTION_RESET);
    println!("IO_CONNECTION_ABORTED|{}", IO_CONNECTION_ABORTED);
    println!("IO_NOT_CONNECTED|{}", IO_NOT_CONNECTED);
    println!("IO_ADDR_INUSE|{}", IO_ADDR_INUSE);
    println!("IO_ADDR_NOT_AVAILABLE|{}", IO_ADDR_NOT_AVAILABLE);
    println!("IO_BROKEN_PIPE|{}", IO_BROKEN_PIPE);
    println!("IO_ALREADY_EXISTS|{}", IO_ALREADY_EXISTS);
    println!("IO_INVALID_INPUT|{}", IO_INVALID_INPUT);
    println!("IO_INVALID_DATA|{}", IO_INVALID_DATA);
    println!("IO_TIMED_OUT|{}", IO_TIMED_OUT);
    println!("IO_WRITE_ZERO|{}", IO_WRITE_ZERO);
    println!("IO_UNEXPECTED_EOF|{}", IO_UNEXPECTED_EOF);
    println!("IO_INTERRUPTED|{}", IO_INTERRUPTED);
    println!("IO_WOULD_BLOCK|{}", IO_WOULD_BLOCK);
    println!("IO_NOT_CONNECTED_HOST|{}", IO_NOT_CONNECTED_HOST);

    println!("CHANNEL_SEND|{}", CHANNEL_SEND);
    println!("CHANNEL_RECV|{}", CHANNEL_RECV);
    println!("CHANNEL_CLOSE|{}", CHANNEL_CLOSE);

    println!("OS_SYSTEM|{}", OS_SYSTEM);

    println!("SQL|{}", SQL);
    println!("SQL_CONNECTION_NUM_LIMIT|{}", SQL_CONNECTION_NUM_LIMIT);

    println!("WEB3|{}", WEB3);
    println!("WEB_CONTRACT|{}", WEB_CONTRACT);
}

#[test]
fn code_round_trip() {
    let err = Error::make(0x02, 0x01, "wrong type");
    assert_eq!((0x02, 0x01), err.decode());
    assert_eq!(INVALID_TYPE, err.get_code());
    assert_eq!("wrong type", err.get_msg());

    let err = Error::make(0x0A, 0x01, "too many connections");
    assert_eq!((0x0A, 0x01), err.decode());
    assert_eq!(SQL_CONNECTION_NUM_LIMIT, err.get_code());
}

#[test]
fn families_and_predicates() {
    assert!(Error::sql("x").is_sql_err());
    assert!(Error::connection_num_limit("x").is_sql_err());
    assert!(Error::connection_num_limit("x").is_connection_num_limit());
    assert!(Error::not_found("x").is_io_err());
    assert!(Error::invalid_type("x").is_invalid_err());
    assert!(Error::other("x").is_other_err());
    assert!(Error::os_system("x").is_os_err());
    assert!(!Error::sql("x").is_io_err());

    assert!(Error::timeout("x").is_timeout_err());
    assert!(Error::addr_inuse("x").is_addr_inuse());
    assert!(Error::addr_not_available("x").is_addr_inuse());
    assert!(Error::connection_refused("x").is_connection_err());
    assert!(Error::would_block("x").is_connection_err());
    assert!(!Error::not_found("x").is_connection_err());
    assert!(Error::channel_send("x").is_channel_err());
    assert!(Error::channel_rev("x").is_channel_err());
    assert!(Error::channel_close("x").is_channel_err());
    assert!(Error::invalid_auth("x").is_invalid_auth_err());
    assert!(Error::invalid_database("x").is_invalid_database_err());
    assert!(Error::not_connected_host("x").is_not_connected_host());
}

#[test]
fn io_kind_mapping() {
    assert_eq!(
        IO_NOTFOUND,
        Error::from_io_kind(IoErrorKind::NotFound, "gone").get_code()
    );
    assert_eq!(
        IO_PERMISSION_DENIED,
        Error::from_io_kind(IoErrorKind::PermissionDenied, "no").get_code()
    );
    assert_eq!(
        IO_TIMED_OUT,
        Error::from_io_kind(IoErrorKind::TimedOut, "slow").get_code()
    );
    // What the platform reports beyond the listed kinds coalesces into the
    // generic I/O code.
    assert_eq!(
        bee::error::IO,
        Error::from_io_kind(IoErrorKind::Other, "odd").get_code()
    );
    assert_eq!("gone", Error::from_io_kind(IoErrorKind::NotFound, "gone").get_msg());
}

#[test]
fn runtime_failures_convert_to_fixed_codes() {
    let rt = tokio::runtime::Builder::new_current_thread()
        .enable_time()
        .build()
        .unwrap();
    rt.block_on(async {
        let (tx, rx) = tokio::sync::mpsc::channel::<i64>(1);
        drop(rx);
        let send_err = tx.send(7).await.unwrap_err();
        let err = Error::from_send_error(send_err);
        assert_eq!(CHANNEL_SEND, err.get_code());
        assert_eq!("channel closed", err.get_msg());
        assert!(err.is_channel_err());

        let elapsed = tokio::time::timeout(
            std::time::Duration::from_millis(0),
            std::future::pending::<()>(),
        )
        .await
        .unwrap_err();
        let err = Error::from_elapsed(elapsed);
        assert_eq!(IO_TIMED_OUT, err.get_code());
        assert_eq!("deadline has elapsed", err.get_msg());
        assert!(err.is_timeout_err());
    });
}
