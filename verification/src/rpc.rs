//! Plain-value models of the node's RPC requests and responses.
//!
//! The transport that carries them is outside this library; callers perform
//! the calls and hand the decoded values in. A call that failed is handed in
//! as `None`, whatever the transport or application error was.

use vstd::prelude::*;

use crate::payment::Payment;

verus! {

/// Request of the paginated "list payments" query.
pub struct ListPaymentsRequest {
    pub include_incomplete: bool,
    pub index_offset: u64,
}

/// Successful response of the node-info query.
#[derive(Clone, Copy, Debug, PartialEq, Eq, Structural)]
pub struct GetInfoResponse {
    pub num_peers: u32,
    pub block_height: u32,
}

/// Successful response of one "list payments" page.
pub struct ListPaymentsResponse {
    pub last_index_offset: u64,
    pub payments: Vec<Payment>,
}

/// Mathematical model of a "list payments" response.
pub struct PaymentsResponseModel {
    pub last_index_offset: int,
    pub payments: Seq<Payment>,
}

impl View for ListPaymentsResponse {
    type V = PaymentsResponseModel;

    open spec fn view(&self) -> PaymentsResponseModel {
        PaymentsResponseModel {
            last_index_offset: self.last_index_offset as int,
            payments: self.payments@,
        }
    }
}

/// One open channel as reported by the node.
pub struct Channel {
    pub chan_id: u64,
    pub active: bool,
    pub channel_point: String,
    pub local_balance: u64,
    pub remote_balance: u64,
    pub unsettled_balance: u64,
}

/// Mathematical model of a channel.
pub struct ChannelModel {
    pub chan_id: u64,
    pub active: bool,
    pub channel_point: Seq<char>,
    pub local_balance: u64,
    pub remote_balance: u64,
    pub unsettled_balance: u64,
}

impl View for Channel {
    type V = ChannelModel;

    open spec fn view(&self) -> ChannelModel {
        ChannelModel {
            chan_id: self.chan_id,
            active: self.active,
            channel_point: self.channel_point@,
            local_balance: self.local_balance,
            remote_balance: self.remote_balance,
            unsettled_balance: self.unsettled_balance,
        }
    }
}

/// Successful response of the "list channels" query.
pub struct ListChannelsResponse {
    pub channels: Vec<Channel>,
}

impl View for ListChannelsResponse {
    type V = Seq<ChannelModel>;

    open spec fn view(&self) -> Seq<ChannelModel> {
        self.channels@.map_values(|c: Channel| c@)
    }
}

} // verus!
