//! The answer records of a response, as far as a resolution reads them.

use vstd::prelude::*;
use crate::name::{DomainName, NameView};

verus! {

/// An IPv4 address, as its four bytes in network order.
#[derive(Clone, Copy, Debug, PartialEq, Eq)]
pub struct Ipv4Address {
    pub octets: [u8; 4],
}

/// The mathematical value of an answer record.
pub ghost enum RecordView {
    /// The owner is another name for the target.
    Alias { owner: NameView, target: NameView },
    /// The owner has this address.
    Address { owner: NameView, ip: Ipv4Address },
    /// A record of any other kind.
    Other,
}

/// One record of the answer section.
#[derive(Clone, Debug)]
pub enum AnswerRecord {
    /// The owner is another name for the target.
    Alias { owner: DomainName, target: DomainName },
    /// The owner has this address.
    Address { owner: DomainName, ip: Ipv4Address },
    /// A record of any other kind.
    Other,
}

impl View for AnswerRecord {
    type V = RecordView;

    open spec fn view(&self) -> RecordView {
        match *self {
            AnswerRecord::Alias { owner, target } => RecordView::Alias {
                owner: owner@,
                target: target@,
            },
            AnswerRecord::Address { owner, ip } => RecordView::Address { owner: owner@, ip },
            AnswerRecord::Other => RecordView::Other,
        }
    }
}

impl DeepView for AnswerRecord {
    type V = RecordView;

    open spec fn deep_view(&self) -> RecordView {
        self@
    }
}

impl RecordView {
    /// The record names `key`'s owner as an alias.
    pub open spec fn is_alias_of(self, key: Seq<Seq<u8>>) -> bool {
        self matches RecordView::Alias { owner, .. } && owner.key() == key
    }

    /// The record gives an address of `key`'s owner.
    pub open spec fn is_address_of(self, key: Seq<Seq<u8>>) -> bool {
        self matches RecordView::Address { owner, .. } && owner.key() == key
    }
}

} // verus!
