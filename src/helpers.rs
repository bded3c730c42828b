//! Shorthands for building recipients and senders.

use crate::config::opt_view;
use crate::types::{Recipient, Sender};
use vstd::prelude::*;

verus! {

/// The text of an optional string slice.
pub open spec fn opt_str_view(o: Option<&str>) -> Option<Seq<char>> {
    match o {
        Some(s) => Some(s@),
        None => None,
    }
}

/// A recipient with an address and, if given, a name.
pub fn recipient(email: &str, name: Option<&str>) -> (r: Recipient)
    ensures
        r.address@ == email@,
        opt_view(r.name) == opt_str_view(name),
{
    let mut r = Recipient::new(email);
    if let Some(n) = name {
        r = r.with_name(n);
    }
    r
}

/// A sender with an address and, if given, a name and a reply-to address.
pub fn sender(email: &str, name: Option<&str>, reply_to: Option<&str>) -> (r: Sender)
    ensures
        r.address@ == email@,
        opt_view(r.name) == opt_str_view(name),
        opt_view(r.reply_to) == opt_str_view(reply_to),
{
    let mut s = Sender::new(email);
    if let Some(n) = name {
        s = s.with_name(n);
    }
    if let Some(t) = reply_to {
        s = s.with_reply_to(t);
    }
    s
}

} // verus!
