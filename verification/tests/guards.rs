use hotel::{
    is_normal_user, only_owner, AccountId, AddRoomEvent, AgreementCompletedEvent,
    AgreementTerminatedEvent, Hotel, HotelError, HotelRoomBookingEvents, Notification,
    RentPaymentEvent, RoomBook, SignAgreementEvent,
};
use std::cell::RefCell;

fn landlord() -> AccountId {
    AccountId([1u8; 32])
}

fn tenant() -> AccountId {
    AccountId([2u8; 32])
}

#[test]
fn only_owner_runs_the_body_for_the_landlord() {
    let mut hotel = Hotel::new(landlord());
    let answer = only_owner(&mut hotel, landlord(), |hotel: &mut Hotel| {
        Ok(hotel.next_room_id() + 40)
    });
    assert_eq!(answer, Ok(40));
    assert_eq!(hotel.hotel_data.room_id, 1);
}

#[test]
fn only_owner_refuses_everybody_else() {
    let mut hotel = Hotel::new(landlord());
    let answer = only_owner(&mut hotel, tenant(), |hotel: &mut Hotel| Ok(hotel.next_room_id()));
    assert_eq!(answer, Err(HotelError::CallerIsNotOwner));
    assert_eq!(hotel.hotel_data.room_id, 0);
}

#[test]
fn is_normal_user_runs_the_body_for_everybody_else() {
    let mut hotel = Hotel::new(landlord());
    let answer = is_normal_user(&mut hotel, tenant(), |hotel: &mut Hotel| {
        Ok(hotel.next_rent_id() + 7)
    });
    assert_eq!(answer, Ok(7));
    assert_eq!(hotel.hotel_data.rent_id, 1);
}

#[test]
fn is_normal_user_refuses_the_landlord() {
    let mut hotel = Hotel::new(landlord());
    let answer = is_normal_user(&mut hotel, landlord(), |hotel: &mut Hotel| {
        Ok(hotel.next_rent_id())
    });
    assert_eq!(answer, Err(HotelError::CallerIsOwner));
    assert_eq!(hotel.hotel_data.rent_id, 0);
}

#[test]
fn a_guard_hands_on_the_failure_of_its_body() {
    let mut hotel = Hotel::new(landlord());
    let answer: Result<u128, HotelError> =
        only_owner(&mut hotel, landlord(), |_hotel: &mut Hotel| Err(HotelError::RoomNotFound));
    assert_eq!(answer, Err(HotelError::RoomNotFound));
}

struct Recorder {
    seen: RefCell<Vec<String>>,
}

impl HotelRoomBookingEvents for Recorder {
    fn emit_add_room_event(&self, room_id: u128, owner: AccountId) {
        self.seen.borrow_mut().push(format!("add {room_id} {}", owner.0[0]));
    }

    fn emit_sign_agreement_event(&self, room_id: u128, agreement_signer: AccountId) {
        self.seen.borrow_mut().push(format!("sign {room_id} {}", agreement_signer.0[0]));
    }

    fn emit_rent_payment_event(&self, room_id: u128, rent_payment_signer: AccountId) {
        self.seen.borrow_mut().push(format!("rent {room_id} {}", rent_payment_signer.0[0]));
    }

    fn emit_agreement_complete_event(&self, room_id: u128) {
        self.seen.borrow_mut().push(format!("complete {room_id}"));
    }

    fn emit_agreement_terminated_event(&self, room_id: u128) {
        self.seen.borrow_mut().push(format!("terminate {room_id}"));
    }
}

#[test]
fn each_notification_reaches_its_own_method() {
    let sink = Recorder { seen: RefCell::new(Vec::new()) };
    Notification::AddRoom(AddRoomEvent { room_id: 4, owner: landlord() }).emit(&sink);
    Notification::SignAgreement(SignAgreementEvent { room_id: 5, agreement_signer: tenant() })
        .emit(&sink);
    Notification::RentPayment(RentPaymentEvent { room_id: 6, rent_payment_signer: tenant() })
        .emit(&sink);
    Notification::AgreementCompleted(AgreementCompletedEvent { room_id: 7 }).emit(&sink);
    Notification::AgreementTerminated(AgreementTerminatedEvent { room_id: 8 }).emit(&sink);
    assert_eq!(
        *sink.seen.borrow(),
        vec!["add 4 1", "sign 5 2", "rent 6 2", "complete 7", "terminate 8"]
    );
}

#[test]
fn the_notifications_of_a_tenancy_reach_the_sink_in_order() {
    let sink = Recorder { seen: RefCell::new(Vec::new()) };
    let mut hotel = Hotel::new(landlord());
    hotel
        .add_room(landlord(), String::from("r1"), String::from("addr1"), 10, 10, 0)
        .unwrap()
        .notification
        .emit(&sink);
    hotel.sign_agreement(tenant(), 20, 0).unwrap().notification.emit(&sink);
    hotel.pay_rent(tenant(), 10, 0).unwrap().notification.emit(&sink);
    hotel.agreement_completed(landlord(), 0).unwrap().notification.emit(&sink);
    assert_eq!(*sink.seen.borrow(), vec!["add 0 1", "sign 0 2", "rent 0 2", "complete 0"]);
}

#[test]
fn a_notification_names_its_room() {
    assert_eq!(Notification::AddRoom(AddRoomEvent { room_id: 4, owner: landlord() }).room_id(), 4);
    assert_eq!(
        Notification::AgreementTerminated(AgreementTerminatedEvent { room_id: 8 }).room_id(),
        8
    );
}
