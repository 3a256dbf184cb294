use vstd::prelude::*;

use crate::instance::InstanceWrapper;

verus! {

/// The chain a contract runs against.
#[derive(Clone, Copy, Debug, PartialEq, Eq, Structural)]
pub enum BitcoinNetwork {
    Mainnet,
    Testnet,
    Regtest,
}

/// Why and where guest code aborted.
#[derive(Debug)]
pub struct AbortData {
    pub message: String,
    pub file_name: String,
    pub line: u32,
    pub column: u32,
}

impl AbortData {
    /// A copy of this abort reason.
    pub fn duplicate(&self) -> (r: AbortData)
        ensures
            r == *self,
    {
        AbortData {
            message: self.message.clone(),
            file_name: self.file_name.clone(),
            line: self.line,
            column: self.column,
        }
    }
}

/// The environment of one invocation: the active instance, the network, and the reason of an
/// abort once one was recorded.
pub struct CustomEnv {
    pub instance: Option<InstanceWrapper>,
    pub network: BitcoinNetwork,
    pub abort_data: Option<AbortData>,
}

impl CustomEnv {
    /// An environment for `network` with no instance and no abort recorded.
    pub fn new(network: BitcoinNetwork) -> (r: CustomEnv)
        ensures
            r.instance is None,
            r.network == network,
            r.abort_data is None,
    {
        CustomEnv { instance: None, network, abort_data: None }
    }

    /// Makes `instance` the active instance.
    pub fn set_instance(&mut self, instance: InstanceWrapper)
        ensures
            final(self).instance == Some(instance),
            final(self).network == old(self).network,
            final(self).abort_data == old(self).abort_data,
    {
        self.instance = Some(instance);
    }

    /// Records `data` as the reason of the abort unless one is recorded already; returns
    /// whether it was recorded.
    pub fn record_abort(&mut self, data: AbortData) -> (r: bool)
        ensures
            r == old(self).abort_data is None,
            r ==> final(self).abort_data == Some(data),
            !r ==> final(self).abort_data == old(self).abort_data,
            final(self).instance == old(self).instance,
            final(self).network == old(self).network,
    {
        if self.abort_data.is_some() {
            return false;
        }
        self.abort_data = Some(data);
        true
    }

    /// The recorded abort reason, if any.
    pub fn get_abort_data(&self) -> (r: Option<AbortData>)
        ensures
            r == self.abort_data,
    {
        match &self.abort_data {
            Some(d) => Some(d.duplicate()),
            None => None,
        }
    }
}

} // verus!
