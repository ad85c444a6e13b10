use ticket_service::saturating::SaturatingU16;
use ticket_service::ticket_v1::Ticket;

#[test]
fn works() {
    let ticket = Ticket::new("A title".into(), "A description".into(), "To-Do".into());
    assert_eq!(ticket.title(), "A title");
    assert_eq!(ticket.description(), "A description");
    assert_eq!(ticket.status(), "To-Do");
}

#[test]
fn saturating_add_plain() {
    let a = SaturatingU16::from(3u16);
    let b = SaturatingU16::from(7u8);
    assert_eq!(a.add(b).value(), 10);
    assert_eq!(a.add(b), SaturatingU16::from(10u16));
}

#[test]
fn saturating_add_saturates() {
    let a = SaturatingU16::from(u16::MAX);
    let b = SaturatingU16::from(1u16);
    assert_eq!(a.add(b).value(), u16::MAX);
    let c = SaturatingU16::from(65000u16);
    let d = SaturatingU16::from(65000u16);
    assert_eq!(c.add(d).value(), u16::MAX);
}
