use async_std::io::{ReadExt, WriteExt};
use async_std::os::unix::net::UnixStream;
use volo_grpc::conn::{Conn, ConnInfo, ConnStream, OwnedReadHalf, OwnedWriteHalf};

#[test]
fn split_halves_work_independently() {
    async_std::task::block_on(async {
        let (local, mut peer) = UnixStream::pair().unwrap();
        let conn = Conn::new(ConnStream::from_unix(local), ConnInfo { peer_addr: None });
        assert!(conn.info.peer_addr.is_none());
        let (read_half, write_half) = conn.stream.into_split();
        let mut w = match write_half {
            OwnedWriteHalf::Unix(s) => s,
            OwnedWriteHalf::Tcp(_) => panic!("transport changed"),
        };
        let mut r = match read_half {
            OwnedReadHalf::Unix(s) => s,
            OwnedReadHalf::Tcp(_) => panic!("transport changed"),
        };

        // A write commits while no read is pending on the other half.
        w.write_all(b"ping").await.unwrap();
        let mut got = [0u8; 4];
        peer.read_exact(&mut got).await.unwrap();
        assert_eq!(&got, b"ping");

        // The read half sees exactly what the peer sent, nothing of our write.
        peer.write_all(b"pong!").await.unwrap();
        let mut back = [0u8; 5];
        r.read_exact(&mut back).await.unwrap();
        assert_eq!(&back, b"pong!");

        // Shutting down writing leaves reading open.
        w.shutdown(async_std::net::Shutdown::Write).unwrap();
        let mut rest = Vec::new();
        peer.read_to_end(&mut rest).await.unwrap();
        assert!(rest.is_empty());
        peer.write_all(b"x").await.unwrap();
        let mut one = [0u8; 1];
        r.read_exact(&mut one).await.unwrap();
        assert_eq!(&one, b"x");
    });
}
