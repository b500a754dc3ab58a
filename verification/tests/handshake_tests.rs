use msir::chunk::transport::Transport;
use msir::handshake::context::Context;
use msir::handshake::error::HandshakeError;
use msir::handshake::simple_hs::SimpleHandshake;
use msir::handshake::complex_hs::ComplexHandshake;
use msir::handshake::{Client, HandshakeStep, Server};

#[test]
fn client_and_server_shake_hands() {
    let mut server = Server::new();
    let mut client = Client::new();
    let mut to_server = Transport::new();
    let mut to_client = Transport::new();

    assert!(matches!(server.handshake(&mut to_server).unwrap(), HandshakeStep::Pending));
    let c0c1 = match client.handshake(&mut to_client).unwrap() {
        HandshakeStep::Send(b) => b,
        other => panic!("unexpected {:?}", other),
    };
    assert_eq!(c0c1.len(), 1537);
    assert_eq!(c0c1[0], 3);
    assert_eq!(&c0c1[5..9], &[0, 0, 0, 0]);
    assert!(matches!(client.handshake(&mut to_client).unwrap(), HandshakeStep::Pending));

    to_server.fill(&c0c1[..1000]).unwrap();
    assert!(matches!(server.handshake(&mut to_server).unwrap(), HandshakeStep::Pending));
    to_server.fill(&c0c1[1000..]).unwrap();
    let s0s1s2 = match server.handshake(&mut to_server).unwrap() {
        HandshakeStep::Send(b) => b,
        other => panic!("unexpected {:?}", other),
    };
    assert_eq!(s0s1s2.len(), 3073);
    assert_eq!(s0s1s2[0], 3);
    assert_eq!(&s0s1s2[5..9], &[0, 0, 0, 0]);
    assert_eq!(&s0s1s2[1537..], &c0c1[1..]);
    assert!(matches!(server.handshake(&mut to_server).unwrap(), HandshakeStep::Pending));

    to_client.fill(&s0s1s2).unwrap();
    let c2 = match client.handshake(&mut to_client).unwrap() {
        HandshakeStep::Finish(b) => b,
        other => panic!("unexpected {:?}", other),
    };
    assert_eq!(c2.len(), 1536);
    assert_eq!(&c2[..], &s0s1s2[1..1537]);
    assert!(matches!(client.handshake(&mut to_client).unwrap(), HandshakeStep::Done));

    to_server.fill(&c2).unwrap();
    to_server.fill(&[1, 2, 3]).unwrap();
    assert!(matches!(server.handshake(&mut to_server).unwrap(), HandshakeStep::Done));
    assert_eq!(to_server.peek(), &[1, 2, 3]);
}

#[test]
fn the_server_refuses_another_version() {
    let mut server = Server::new();
    let mut io = Transport::new();
    let mut c0c1 = vec![0u8; 1537];
    c0c1[0] = 6;
    io.fill(&c0c1).unwrap();
    assert_eq!(server.handshake(&mut io).unwrap_err(), HandshakeError::InvalidVersion(6));
}

#[test]
fn the_client_refuses_another_version() {
    let mut client = Client::new();
    let mut io = Transport::new();
    assert!(matches!(client.handshake(&mut io).unwrap(), HandshakeStep::Send(_)));
    let mut s0s1s2 = vec![0u8; 3073];
    s0s1s2[0] = 4;
    io.fill(&s0s1s2).unwrap();
    assert_eq!(client.handshake(&mut io).unwrap_err(), HandshakeError::InvalidVersion(4));
}

#[test]
fn the_complex_handshake_sends_on_to_the_simple_one() {
    let complex = ComplexHandshake {};
    let mut ctx = Context::new();
    let mut io = Transport::new();
    assert_eq!(
        complex.handshake_with_client(&mut ctx, &mut io).unwrap_err(),
        HandshakeError::TrySimpleHandshake
    );
    assert_eq!(
        complex.handshake_with_server(&mut ctx, &mut io).unwrap_err(),
        HandshakeError::TrySimpleHandshake
    );
    assert!(ctx.c0c1.is_empty());
    let simple = SimpleHandshake {};
    assert!(matches!(
        simple.handshake_with_client(&mut ctx, &mut io).unwrap(),
        HandshakeStep::Pending
    ));
}

#[test]
fn packets_are_made_once() {
    let mut ctx = Context::new();
    ctx.create_c0c1().unwrap();
    let first = ctx.c0c1.to_vec();
    assert_eq!(first.len(), 1537);
    ctx.create_c0c1().unwrap();
    assert_eq!(ctx.c0c1.to_vec(), first);
    ctx.create_s0s1s2().unwrap();
    assert_eq!(ctx.s0s1s2.len(), 3073);
    assert_eq!(&ctx.s0s1s2[1537..], &first[1..]);
    ctx.create_c2().unwrap();
    assert_eq!(&ctx.c2[..], &ctx.s0s1s2[1..1537]);
}

#[test]
fn the_random_part_differs_from_packet_to_packet() {
    let mut a = Context::new();
    let mut b = Context::new();
    a.create_c0c1().unwrap();
    b.create_c0c1().unwrap();
    assert_ne!(&a.c0c1[9..], &b.c0c1[9..]);
    assert!(a.c0c1[9..].iter().any(|x| *x != a.c0c1[9]));
}

#[test]
fn packets_without_a_peer_are_made_anew() {
    let mut ctx = Context::new();
    ctx.create_s0s1s2().unwrap();
    assert_eq!(ctx.s0s1s2.len(), 3073);
    assert_eq!(ctx.s0s1s2[0], 3);
    assert_eq!(&ctx.s0s1s2[5..9], &[0, 0, 0, 0]);
    assert!(ctx.s0s1s2[1537..].iter().any(|x| *x != ctx.s0s1s2[1537]));
    let mut other = Context::new();
    other.create_c2().unwrap();
    assert_eq!(other.c2.len(), 1536);
    assert_eq!(&other.c2[4..8], &[0, 0, 0, 0]);
}

#[test]
fn packets_of_a_given_time_and_chance() {
    let random: Vec<u8> = (0..1528u32).map(|i| (i % 256) as u8).collect();
    let mut ctx = Context::new();
    ctx.set_c0c1(0x01020304, &random);
    assert_eq!(ctx.c0c1.len(), 1537);
    assert_eq!(&ctx.c0c1[..9], &[3, 1, 2, 3, 4, 0, 0, 0, 0]);
    assert_eq!(&ctx.c0c1[9..], &random[..]);
    ctx.set_c0c1(9, &random);
    assert_eq!(&ctx.c0c1[..5], &[3, 1, 2, 3, 4]);
    let other = vec![7u8; 1536];
    ctx.set_s0s1s2(0x0a0b0c0d, &random, &other);
    assert_eq!(ctx.s0s1s2.len(), 3073);
    assert_eq!(&ctx.s0s1s2[..9], &[3, 0x0a, 0x0b, 0x0c, 0x0d, 0, 0, 0, 0]);
    assert_eq!(&ctx.s0s1s2[9..1537], &random[..]);
    assert_eq!(&ctx.s0s1s2[1537..], &ctx.c0c1[1..]);
    ctx.set_c2(5, &random);
    assert_eq!(&ctx.c2[..], &ctx.s0s1s2[1..1537]);
    let mut alone = Context::new();
    alone.set_s0s1s2(1, &random, &other);
    assert_eq!(&alone.s0s1s2[1537..], &other[..]);
    let mut client = Context::new();
    client.set_c2(0x00000102, &random);
    assert_eq!(&client.c2[..8], &[0, 0, 1, 2, 0, 0, 0, 0]);
    assert_eq!(&client.c2[8..], &random[..]);
}

#[test]
fn packets_are_read_once_they_have_arrived() {
    let mut ctx = Context::new();
    let mut io = Transport::new();
    io.fill(&vec![3u8; 1536]).unwrap();
    assert_eq!(ctx.read_c0c1(&mut io).unwrap(), false);
    assert_eq!(ctx.read_c2(&mut io).unwrap(), true);
    assert_eq!(ctx.c2.len(), 1536);
    assert_eq!(io.buf_len(), 0);
    io.fill(&vec![5u8; 3073]).unwrap();
    assert_eq!(ctx.read_s0s1s2(&mut io).unwrap(), true);
    assert_eq!(ctx.s0s1s2[0], 5);
    assert_eq!(io.buf_len(), 0);
}
