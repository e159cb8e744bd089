use vstd::prelude::*;
use crate::pid::{PidResponse, decoded};
use crate::protocol::{ObdError, ObdProtocol};

verus! {

/// Command timeout of a new client (ms).
pub const DEFAULT_TIMEOUT_MS: u64 = 2000;

/// Raw reply bytes of the simulated adapter for `pid`, drawn from `noise`.
pub open spec fn mock_bytes(pid: u8, noise: u64) -> Seq<u8> {
    if pid == 0x0C {
        let enc = (800 + noise % 2700) * 4;
        seq![(enc / 256) as u8, (enc % 256) as u8]
    } else if pid == 0x0D {
        seq![(noise % 120) as u8]
    } else if pid == 0x05 {
        seq![(110 + noise % 35) as u8]
    } else if pid == 0x04 {
        seq![(51 + noise % 153) as u8]
    } else if pid == 0x10 {
        let maf = 500 + noise % 4500;
        seq![(maf / 256) as u8, (maf % 256) as u8]
    } else if pid == 0x06 || pid == 0x07 {
        seq![(115 + noise % 26) as u8]
    } else if pid == 0x14 {
        seq![(20 + noise % 160) as u8]
    } else {
        seq![0u8]
    }
}

/// Client of a diagnostics adapter; in mock mode it answers from a simulation.
pub struct ObdClient {
    device: String,
    protocol: ObdProtocol,
    timeout_ms: u64,
    connected: bool,
    mock_mode: bool,
}

impl ObdClient {
    pub closed spec fn spec_device(&self) -> Seq<char> {
        self.device@
    }

    pub closed spec fn spec_protocol(&self) -> ObdProtocol {
        self.protocol
    }

    pub closed spec fn spec_timeout_ms(&self) -> u64 {
        self.timeout_ms
    }

    pub closed spec fn spec_connected(&self) -> bool {
        self.connected
    }

    pub closed spec fn spec_mock(&self) -> bool {
        self.mock_mode
    }

    /// A disconnected client of the adapter at `device`, on automatic protocol.
    pub fn new(device: &str, baud_rate: u32) -> (r: ObdClient)
        ensures
            r.spec_device() == device@,
            r.spec_protocol() == ObdProtocol::Auto,
            r.spec_timeout_ms() == DEFAULT_TIMEOUT_MS,
            !r.spec_connected(),
            !r.spec_mock(),
    {
        ObdClient {
            device: device.to_owned(),
            protocol: ObdProtocol::Auto,
            timeout_ms: DEFAULT_TIMEOUT_MS,
            connected: false,
            mock_mode: false,
        }
    }

    /// A connected simulated client on 11-bit 500 kbaud CAN.
    pub fn mock() -> (r: ObdClient)
        ensures
            r.spec_device() == "mock"@,
            r.spec_protocol() == ObdProtocol::Iso15765_4Can11bit500,
            r.spec_timeout_ms() == 100,
            r.spec_connected(),
            r.spec_mock(),
    {
        ObdClient {
            device: "mock".to_owned(),
            protocol: ObdProtocol::Iso15765_4Can11bit500,
            timeout_ms: 100,
            connected: true,
            mock_mode: true,
        }
    }

    /// Brings the adapter up; the client is connected afterwards.
    pub fn initialize(&mut self) -> (r: Result<(), ObdError>)
        ensures
            r is Ok,
            final(self).spec_connected(),
            final(self).spec_device() == old(self).spec_device(),
            final(self).spec_protocol() == old(self).spec_protocol(),
            final(self).spec_timeout_ms() == old(self).spec_timeout_ms(),
            final(self).spec_mock() == old(self).spec_mock(),
    {
        self.connected = true;
        Ok(())
    }

    /// Queries `pid`, stamping the reply `timestamp_ms`. A disconnected client
    /// fails with `AdapterNotResponding`; a simulated one answers with bytes
    /// drawn from `noise`; a real adapter gives no answer here.
    pub fn query_pid(&mut self, pid: u8, timestamp_ms: u64, noise: u64) -> (r: Result<
        PidResponse,
        ObdError,
    >)
        ensures
            *final(self) == *old(self),
            match r {
                Ok(resp) => old(self).spec_connected() && old(self).spec_mock() && resp.wf()
                    && resp.pid == pid && resp.timestamp_ms == timestamp_ms && resp.raw_bytes@
                    == mock_bytes(pid, noise),
                Err(e) => e == ObdError::AdapterNotResponding && !(old(self).spec_connected()
                    && old(self).spec_mock()),
            },
    {
        if !self.connected {
            return Err(ObdError::AdapterNotResponding);
        }
        if self.mock_mode {
            return Ok(self.generate_mock_response(pid, timestamp_ms, noise));
        }
        Err(ObdError::AdapterNotResponding)
    }

    /// Selects `protocol`.
    pub fn set_protocol(&mut self, protocol: ObdProtocol) -> (r: Result<(), ObdError>)
        ensures
            r is Ok,
            final(self).spec_protocol() == protocol,
            final(self).spec_connected() == old(self).spec_connected(),
            final(self).spec_device() == old(self).spec_device(),
            final(self).spec_timeout_ms() == old(self).spec_timeout_ms(),
            final(self).spec_mock() == old(self).spec_mock(),
    {
        self.protocol = protocol;
        Ok(())
    }

    /// Sets the command timeout (ms).
    pub fn set_timeout(&mut self, timeout_ms: u64)
        ensures
            final(self).spec_timeout_ms() == timeout_ms,
            final(self).spec_protocol() == old(self).spec_protocol(),
            final(self).spec_connected() == old(self).spec_connected(),
            final(self).spec_device() == old(self).spec_device(),
            final(self).spec_mock() == old(self).spec_mock(),
    {
        self.timeout_ms = timeout_ms;
    }

    /// Whether the client is connected.
    pub fn is_connected(&self) -> (r: bool)
        ensures
            r == self.spec_connected(),
    {
        self.connected
    }

    /// Current protocol.
    pub fn protocol(&self) -> (r: ObdProtocol)
        ensures
            r == self.spec_protocol(),
    {
        self.protocol
    }

    /// Command timeout (ms).
    pub fn timeout_ms(&self) -> (r: u64)
        ensures
            r == self.spec_timeout_ms(),
    {
        self.timeout_ms
    }

    /// Whether replies come from the simulation.
    pub fn is_mock(&self) -> (r: bool)
        ensures
            r == self.spec_mock(),
    {
        self.mock_mode
    }

    /// Disconnects.
    pub fn disconnect(&mut self)
        ensures
            !final(self).spec_connected(),
            final(self).spec_protocol() == old(self).spec_protocol(),
            final(self).spec_device() == old(self).spec_device(),
            final(self).spec_timeout_ms() == old(self).spec_timeout_ms(),
            final(self).spec_mock() == old(self).spec_mock(),
    {
        self.connected = false;
    }

    /// The simulated reply to `pid`, with values drawn from `noise` in
    /// plausible ranges.
    fn generate_mock_response(&self, pid: u8, timestamp_ms: u64, noise: u64) -> (r: PidResponse)
        ensures
            r.wf(),
            r.pid == pid,
            r.timestamp_ms == timestamp_ms,
            r.raw_bytes@ == mock_bytes(pid, noise),
    {
        let mut raw: Vec<u8> = Vec::new();
        if pid == 0x0C {
            let enc: u64 = (800 + noise % 2700) * 4;
            raw.push((enc / 256) as u8);
            raw.push((enc % 256) as u8);
        } else if pid == 0x0D {
            raw.push((noise % 120) as u8);
        } else if pid == 0x05 {
            raw.push((110 + noise % 35) as u8);
        } else if pid == 0x04 {
            raw.push((51 + noise % 153) as u8);
        } else if pid == 0x10 {
            let maf: u64 = 500 + noise % 4500;
            raw.push((maf / 256) as u8);
            raw.push((maf % 256) as u8);
        } else if pid == 0x06 || pid == 0x07 {
            raw.push((115 + noise % 26) as u8);
        } else if pid == 0x14 {
            raw.push((20 + noise % 160) as u8);
        } else {
            raw.push(0);
        }
        assert(raw@ =~= mock_bytes(pid, noise));
        PidResponse::decode(pid, raw, timestamp_ms)
    }
}

} // verus!
