//! Connection and listener configuration.

use vstd::prelude::*;
use vstd::string::StringExecFns;

use crate::error::Error;
use crate::text::append_decimal;
use crate::text::decimal;

verus! {

/// What one connection asks of its queue pair.
#[derive(Clone, Copy, Debug, PartialEq, Eq, Structural)]
pub struct RdmaConnectionConfig {
    pub max_send_wr: usize,
    pub max_recv_wr: usize,
    pub max_send_sge: usize,
    pub max_recv_sge: usize,
}

impl Default for RdmaConnectionConfig {
    fn default() -> (config: Self)
        ensures
            config == (RdmaConnectionConfig {
                max_send_wr: 19,
                max_recv_wr: 34,
                max_send_sge: 1,
                max_recv_sge: 1,
            }),
    {
        RdmaConnectionConfig { max_send_wr: 19, max_recv_wr: 34, max_send_sge: 1, max_recv_sge: 1 }
    }
}

impl RdmaConnectionConfig {
    pub fn max_send_wr(self, count: usize) -> (config: Self)
        ensures
            config == (RdmaConnectionConfig { max_send_wr: count, ..self }),
    {
        RdmaConnectionConfig { max_send_wr: count, ..self }
    }
}

/// What the provider granted to a queue pair.
#[derive(Clone, Copy, Debug, PartialEq, Eq, Structural)]
pub struct QpCapabilities {
    pub max_send_wr: u32,
    pub max_recv_wr: u32,
    pub max_send_sge: u32,
    pub max_recv_sge: u32,
}

/// The text of a shortfall.
pub open spec fn shortfall_text(name: Seq<char>, actual: nat, requested: nat) -> Seq<char> {
    "provider returned "@ + name + " "@ + decimal(actual) + ", below requested "@ + decimal(
        requested,
    )
}

fn shortfall(name: &str, actual: u32, requested: usize) -> (error: Error)
    ensures
        error.is_invalid_config(shortfall_text(name@, actual as nat, requested as nat)),
{
    let mut text: String = String::new();
    text.append("provider returned ");
    text.append(name);
    text.append(" ");
    append_decimal(&mut text, actual as u64);
    text.append(", below requested ");
    append_decimal(&mut text, requested as u64);
    assert(text@ =~= shortfall_text(name@, actual as nat, requested as nat));
    Error::InvalidConfig(text)
}

impl QpCapabilities {
    /// Whether the granted limits cover the requested ones.
    pub open spec fn covers(self, config: RdmaConnectionConfig) -> bool {
        &&& self.max_send_wr >= config.max_send_wr
        &&& self.max_recv_wr >= config.max_recv_wr
        &&& self.max_send_sge >= config.max_send_sge
        &&& self.max_recv_sge >= config.max_recv_sge
    }

    /// The text that names the first limit below its request.
    pub open spec fn shortfall(self, config: RdmaConnectionConfig) -> Seq<char> {
        if self.max_send_wr < config.max_send_wr {
            shortfall_text(
                "maximum send WRs"@,
                self.max_send_wr as nat,
                config.max_send_wr as nat,
            )
        } else if self.max_recv_wr < config.max_recv_wr {
            shortfall_text(
                "maximum receive WRs"@,
                self.max_recv_wr as nat,
                config.max_recv_wr as nat,
            )
        } else if self.max_send_sge < config.max_send_sge {
            shortfall_text(
                "maximum send SGEs"@,
                self.max_send_sge as nat,
                config.max_send_sge as nat,
            )
        } else {
            shortfall_text(
                "maximum receive SGEs"@,
                self.max_recv_sge as nat,
                config.max_recv_sge as nat,
            )
        }
    }

    /// Fails with the first granted limit that is below its request.
    pub fn require(&self, config: &RdmaConnectionConfig) -> (result: Result<(), Error>)
        ensures
            result is Ok <==> self.covers(*config),
            result matches Err(error) ==> error.is_invalid_config(self.shortfall(*config)),
    {
        if (self.max_send_wr as u64) < config.max_send_wr as u64 {
            return Err(shortfall("maximum send WRs", self.max_send_wr, config.max_send_wr));
        }
        if (self.max_recv_wr as u64) < config.max_recv_wr as u64 {
            return Err(shortfall("maximum receive WRs", self.max_recv_wr, config.max_recv_wr));
        }
        if (self.max_send_sge as u64) < config.max_send_sge as u64 {
            return Err(shortfall("maximum send SGEs", self.max_send_sge, config.max_send_sge));
        }
        if (self.max_recv_sge as u64) < config.max_recv_sge as u64 {
            return Err(shortfall("maximum receive SGEs", self.max_recv_sge, config.max_recv_sge));
        }
        Ok(())
    }
}

/// What the queue-pair builder is asked for.
#[derive(Clone, Copy, Debug, PartialEq, Eq, Structural)]
pub struct QpRequest {
    pub max_send_wr: u32,
    pub max_recv_wr: u32,
    pub max_send_sge: u32,
    pub max_recv_sge: u32,
    pub sq_sig_all: bool,
}

/// The queue-pair request for a configuration: its four limits, which must fit
/// the provider's 32-bit fields, with every send signalled.
pub fn build_qp(config: &RdmaConnectionConfig) -> (request: Result<QpRequest, Error>)
    ensures
        request is Ok <==> config.max_send_wr <= u32::MAX && config.max_recv_wr <= u32::MAX
            && config.max_send_sge <= u32::MAX && config.max_recv_sge <= u32::MAX,
        match request {
            Ok(qp) => {
                &&& qp.max_send_wr == config.max_send_wr
                &&& qp.max_recv_wr == config.max_recv_wr
                &&& qp.max_send_sge == config.max_send_sge
                &&& qp.max_recv_sge == config.max_recv_sge
                &&& qp.sq_sig_all
            },
            Err(error) => error.is_invalid_config(
                if config.max_send_wr > u32::MAX {
                    "maximum send WRs do not fit u32"@
                } else if config.max_recv_wr > u32::MAX {
                    "maximum receive WRs do not fit u32"@
                } else if config.max_send_sge > u32::MAX {
                    "maximum send SGEs do not fit u32"@
                } else {
                    "maximum receive SGEs do not fit u32"@
                },
            ),
        },
{
    if config.max_send_wr as u64 > u32::MAX as u64 {
        return Err(Error::invalid("maximum send WRs do not fit u32"));
    }
    if config.max_recv_wr as u64 > u32::MAX as u64 {
        return Err(Error::invalid("maximum receive WRs do not fit u32"));
    }
    if config.max_send_sge as u64 > u32::MAX as u64 {
        return Err(Error::invalid("maximum send SGEs do not fit u32"));
    }
    if config.max_recv_sge as u64 > u32::MAX as u64 {
        return Err(Error::invalid("maximum receive SGEs do not fit u32"));
    }
    Ok(
        QpRequest {
            max_send_wr: config.max_send_wr as u32,
            max_recv_wr: config.max_recv_wr as u32,
            max_send_sge: config.max_send_sge as u32,
            max_recv_sge: config.max_recv_sge as u32,
            sq_sig_all: true,
        },
    )
}

} // verus!
