use input::{Button, EventId, F64Bits, Input, Motion, MouseButton, Payload};

fn sent_and_shared<T: Send + Sync>() {}

// Events hold plain values only, so they can be sent to another task and read
// from several at once.
#[test]
fn events_can_be_sent_and_shared() {
    sent_and_shared::<Input>();
    sent_and_shared::<Motion>();
    sent_and_shared::<Button>();
    sent_and_shared::<MouseButton>();
    sent_and_shared::<EventId>();
    sent_and_shared::<F64Bits>();
    sent_and_shared::<Payload<'static>>();
}
