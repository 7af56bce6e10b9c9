//! Calls that read network statistics.

use crate::func::VcmpFunctions;
use crate::options::VcmpNetworkStatisticsQueryOption;
use crate::raw::PluginFuncs;
use crate::types::PlayerId;
use crate::utils::Float64;
use vstd::prelude::*;

verus! {

/// A player's network statistics, one method for each.
pub trait QueryNetworkStatistics {
    fn data_sent_per_second(&self, player_id: PlayerId) -> Float64;

    fn data_resent_per_second(&self, player_id: PlayerId) -> Float64;

    fn data_received_per_second(&self, player_id: PlayerId) -> Float64;

    fn data_discarded_per_second(&self, player_id: PlayerId) -> Float64;

    fn all_bytes_sent_per_second(&self, player_id: PlayerId) -> Float64;

    fn all_bytes_received_per_second(&self, player_id: PlayerId) -> Float64;

    fn data_sent_total(&self, player_id: PlayerId) -> Float64;

    fn data_resent_total(&self, player_id: PlayerId) -> Float64;

    fn data_received_total(&self, player_id: PlayerId) -> Float64;

    fn data_discarded_total(&self, player_id: PlayerId) -> Float64;

    fn all_bytes_sent_total(&self, player_id: PlayerId) -> Float64;

    fn all_bytes_received_total(&self, player_id: PlayerId) -> Float64;

    fn messages_waiting(&self, player_id: PlayerId) -> Float64;

    fn messages_resending(&self, player_id: PlayerId) -> Float64;

    fn bytes_resending(&self, player_id: PlayerId) -> Float64;

    fn packet_loss_per_second(&self, player_id: PlayerId) -> Float64;

    fn packet_loss_total(&self, player_id: PlayerId) -> Float64;
}

impl<H: PluginFuncs> QueryNetworkStatistics for VcmpFunctions<H> {
    fn data_sent_per_second(&self, player_id: PlayerId) -> (value: Float64)
        ensures
            self.reads_network_statistics(
                player_id,
                VcmpNetworkStatisticsQueryOption::DataSentPerSecond,
                value,
            ),
    {
        self.get_network_statistics(player_id, VcmpNetworkStatisticsQueryOption::DataSentPerSecond)
    }

    fn data_resent_per_second(&self, player_id: PlayerId) -> (value: Float64)
        ensures
            self.reads_network_statistics(
                player_id,
                VcmpNetworkStatisticsQueryOption::DataResentPerSecond,
                value,
            ),
    {
        self.get_network_statistics(
            player_id,
            VcmpNetworkStatisticsQueryOption::DataResentPerSecond,
        )
    }

    fn data_received_per_second(&self, player_id: PlayerId) -> (value: Float64)
        ensures
            self.reads_network_statistics(
                player_id,
                VcmpNetworkStatisticsQueryOption::DataReceivedPerSecond,
                value,
            ),
    {
        self.get_network_statistics(
            player_id,
            VcmpNetworkStatisticsQueryOption::DataReceivedPerSecond,
        )
    }

    fn data_discarded_per_second(&self, player_id: PlayerId) -> (value: Float64)
        ensures
            self.reads_network_statistics(
                player_id,
                VcmpNetworkStatisticsQueryOption::DataDiscardedPerSecond,
                value,
            ),
    {
        self.get_network_statistics(
            player_id,
            VcmpNetworkStatisticsQueryOption::DataDiscardedPerSecond,
        )
    }

    fn all_bytes_sent_per_second(&self, player_id: PlayerId) -> (value: Float64)
        ensures
            self.reads_network_statistics(
                player_id,
                VcmpNetworkStatisticsQueryOption::AllBytesSentPerSecond,
                value,
            ),
    {
        self.get_network_statistics(
            player_id,
            VcmpNetworkStatisticsQueryOption::AllBytesSentPerSecond,
        )
    }

    fn all_bytes_received_per_second(&self, player_id: PlayerId) -> (value: Float64)
        ensures
            self.reads_network_statistics(
                player_id,
                VcmpNetworkStatisticsQueryOption::AllBytesReceivedPerSecond,
                value,
            ),
    {
        self.get_network_statistics(
            player_id,
            VcmpNetworkStatisticsQueryOption::AllBytesReceivedPerSecond,
        )
    }

    fn data_sent_total(&self, player_id: PlayerId) -> (value: Float64)
        ensures
            self.reads_network_statistics(
                player_id,
                VcmpNetworkStatisticsQueryOption::DataSentTotal,
                value,
            ),
    {
        self.get_network_statistics(player_id, VcmpNetworkStatisticsQueryOption::DataSentTotal)
    }

    fn data_resent_total(&self, player_id: PlayerId) -> (value: Float64)
        ensures
            self.reads_network_statistics(
                player_id,
                VcmpNetworkStatisticsQueryOption::DataResentTotal,
                value,
            ),
    {
        self.get_network_statistics(player_id, VcmpNetworkStatisticsQueryOption::DataResentTotal)
    }

    fn data_received_total(&self, player_id: PlayerId) -> (value: Float64)
        ensures
            self.reads_network_statistics(
                player_id,
                VcmpNetworkStatisticsQueryOption::DataReceivedTotal,
                value,
            ),
    {
        self.get_network_statistics(player_id, VcmpNetworkStatisticsQueryOption::DataReceivedTotal)
    }

    fn data_discarded_total(&self, player_id: PlayerId) -> (value: Float64)
        ensures
            self.reads_network_statistics(
                player_id,
                VcmpNetworkStatisticsQueryOption::DataDiscardedTotal,
                value,
            ),
    {
        self.get_network_statistics(player_id, VcmpNetworkStatisticsQueryOption::DataDiscardedTotal)
    }

    fn all_bytes_sent_total(&self, player_id: PlayerId) -> (value: Float64)
        ensures
            self.reads_network_statistics(
                player_id,
                VcmpNetworkStatisticsQueryOption::AllBytesSentTotal,
                value,
            ),
    {
        self.get_network_statistics(player_id, VcmpNetworkStatisticsQueryOption::AllBytesSentTotal)
    }

    fn all_bytes_received_total(&self, player_id: PlayerId) -> (value: Float64)
        ensures
            self.reads_network_statistics(
                player_id,
                VcmpNetworkStatisticsQueryOption::AllBytesReceivedTotal,
                value,
            ),
    {
        self.get_network_statistics(
            player_id,
            VcmpNetworkStatisticsQueryOption::AllBytesReceivedTotal,
        )
    }

    fn messages_waiting(&self, player_id: PlayerId) -> (value: Float64)
        ensures
            self.reads_network_statistics(
                player_id,
                VcmpNetworkStatisticsQueryOption::MessagesWaiting,
                value,
            ),
    {
        self.get_network_statistics(player_id, VcmpNetworkStatisticsQueryOption::MessagesWaiting)
    }

    fn messages_resending(&self, player_id: PlayerId) -> (value: Float64)
        ensures
            self.reads_network_statistics(
                player_id,
                VcmpNetworkStatisticsQueryOption::MessagesResending,
                value,
            ),
    {
        self.get_network_statistics(player_id, VcmpNetworkStatisticsQueryOption::MessagesResending)
    }

    fn bytes_resending(&self, player_id: PlayerId) -> (value: Float64)
        ensures
            self.reads_network_statistics(
                player_id,
                VcmpNetworkStatisticsQueryOption::BytesResending,
                value,
            ),
    {
        self.get_network_statistics(player_id, VcmpNetworkStatisticsQueryOption::BytesResending)
    }

    fn packet_loss_per_second(&self, player_id: PlayerId) -> (value: Float64)
        ensures
            self.reads_network_statistics(
                player_id,
                VcmpNetworkStatisticsQueryOption::PacketLossPerSecond,
                value,
            ),
    {
        self.get_network_statistics(
            player_id,
            VcmpNetworkStatisticsQueryOption::PacketLossPerSecond,
        )
    }

    fn packet_loss_total(&self, player_id: PlayerId) -> (value: Float64)
        ensures
            self.reads_network_statistics(
                player_id,
                VcmpNetworkStatisticsQueryOption::PacketLossTotal,
                value,
            ),
    {
        self.get_network_statistics(player_id, VcmpNetworkStatisticsQueryOption::PacketLossTotal)
    }
}

} // verus!
