//! The command-line settings a session starts from.
use vstd::prelude::*;

verus! {

/// Settings given on the command line.
#[derive(Debug)]
pub struct Args {
    /// Serial port path.
    pub port: Option<String>,
    /// Baud rate.
    pub baud: u32,
    /// Data bits.
    pub data_bits: u8,
    /// Stop bits.
    pub stop_bits: u8,
    /// Parity: `none`, `odd` or `even`.
    pub parity: String,
    /// Flow control: `none`, `hardware` or `software`.
    pub flow_control: String,
}

impl Clone for Args {
    fn clone(&self) -> (r: Self)
        ensures
            r == *self,
    {
        let port = match &self.port {
            Some(p) => Some(p.clone()),
            None => None,
        };
        Args {
            port,
            baud: self.baud,
            data_bits: self.data_bits,
            stop_bits: self.stop_bits,
            parity: self.parity.clone(),
            flow_control: self.flow_control.clone(),
        }
    }
}

} // verus!
