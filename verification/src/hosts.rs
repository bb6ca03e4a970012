use vstd::prelude::*;

verus! {

/// Static configuration identifying one downstream target.  Hosts are loaded
/// once at startup by the embedding program and are immutable for the process
/// lifetime; exactly one worker is bound to each host.
pub struct Host {
    pub address: String,
    pub port: u16,
}

impl Host {
    /// The same host value again, for handing one copy to its worker while
    /// the configuration keeps its own.
    pub fn share(&self) -> (copy: Host)
        ensures
            copy.address@ == self.address@,
            copy.port == self.port,
    {
        Host { address: self.address.clone(), port: self.port }
    }
}

/// The host list the coordinator was started with.  Malformed or missing
/// configuration is a fatal startup condition of the embedding program; a
/// value of this type always holds a well-formed (possibly empty) list.
pub struct ExperimentReceiverConfig {
    hosts: Vec<Host>,
}

impl ExperimentReceiverConfig {
    pub closed spec fn spec_hosts(&self) -> Seq<Host> {
        self.hosts@
    }

    pub fn new(hosts: Vec<Host>) -> (config: ExperimentReceiverConfig)
        ensures
            config.spec_hosts() == hosts@,
    {
        ExperimentReceiverConfig { hosts }
    }

    pub fn hosts(&self) -> (hosts: &Vec<Host>)
        ensures
            hosts@ == self.spec_hosts(),
    {
        &self.hosts
    }

    pub fn host_count(&self) -> (n: usize)
        ensures
            n == self.spec_hosts().len(),
    {
        self.hosts.len()
    }
}

} // verus!
