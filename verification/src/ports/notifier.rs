//! Notifying the customer.

use crate::domain::order::Order;
use crate::text::labelled;
use vstd::prelude::*;

verus! {

/// Why a notification was not delivered.
#[derive(Debug)]
pub enum NotificationError {
    SendFailed(String),
    InvalidRecipient(String),
    NetworkError(String),
}

impl NotificationError {
    /// What [`to_string`](NotificationError::to_string) gives for this error.
    pub open spec fn text(self) -> Seq<char> {
        match self {
            NotificationError::SendFailed(msg) => "Send failed: "@ + msg@,
            NotificationError::InvalidRecipient(msg) => "Invalid recipient: "@ + msg@,
            NotificationError::NetworkError(msg) => "Network error: "@ + msg@,
        }
    }

    /// The error as a line of text.
    pub fn to_string(&self) -> (text: String)
        ensures
            text@ == self.text(),
    {
        match self {
            NotificationError::SendFailed(msg) => labelled("Send failed: ", msg.as_str()),
            NotificationError::InvalidRecipient(msg) => labelled(
                "Invalid recipient: ",
                msg.as_str(),
            ),
            NotificationError::NetworkError(msg) => labelled("Network error: ", msg.as_str()),
        }
    }
}

impl Clone for NotificationError {
    fn clone(&self) -> (copy: Self)
        ensures
            copy == *self,
    {
        match self {
            NotificationError::SendFailed(msg) => NotificationError::SendFailed(msg.clone()),
            NotificationError::InvalidRecipient(msg) => NotificationError::InvalidRecipient(
                msg.clone(),
            ),
            NotificationError::NetworkError(msg) => NotificationError::NetworkError(msg.clone()),
        }
    }
}

/// Something that can tell a customer about their order.
///
/// A failure to notify never fails the operation that caused the
/// notification; the workflow records it and carries on. The trait promises
/// nothing about the outcome of a notification.
pub trait Notifier {
    /// Tells the customer that the order was placed.
    fn notify_order_placed(&self, order: &Order) -> Result<(), NotificationError>;

    /// Tells the customer that the order is ready for pickup.
    fn notify_order_ready(&self, order: &Order) -> Result<(), NotificationError>;

    /// Tells the customer that the order was cancelled.
    fn notify_order_cancelled(&self, order: &Order) -> Result<(), NotificationError>;
}

} // verus!
