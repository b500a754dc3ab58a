use msir::add;
use msir::handshake::hs_server::{ComplexHandshakeServer, SimpleHandshakeServer};
use msir::message::types::user_ctrl_ev_type::STREAM_BEGIN;

#[test]
fn lib_it_works() {
    let result = add(2, 2);
    assert_eq!(result, 4);
    let s2 = STREAM_BEGIN;
    assert_eq!(s2, 0);
}

#[test]
fn hs_works() {
    let chs = ComplexHandshakeServer {};
    let shs = SimpleHandshakeServer {};
    println!("Lukie {} {}", chs.print(), shs.print());
}
