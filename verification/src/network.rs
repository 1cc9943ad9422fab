//! Network interfaces: traffic counters, hardware address and addresses.

use vstd::prelude::*;

verus! {

/// What the operating system reports of one network interface.
#[derive(Clone, Debug, PartialEq, Eq)]
pub struct InterfaceReading {
    pub name: String,
    /// Bytes received since the interface came up.
    pub total_received: u64,
    /// Bytes sent since the interface came up.
    pub total_transmitted: u64,
    /// The six bytes of the hardware address.
    pub mac_address: [u8; 6],
    /// The addresses bound to the interface, as text.
    pub ip_addresses: Vec<String>,
}

/// One network interface as it is shown.
#[derive(Clone, Debug, PartialEq, Eq)]
pub struct NetworkInterface {
    name: String,
    received_bytes: u64,
    transmitted_bytes: u64,
    mac_address: String,
    ip_addresses: Vec<String>,
}

/// What a [`NetworkInterface`] holds.
pub struct NetworkInterfaceView {
    pub name: Seq<char>,
    pub received_bytes: u64,
    pub transmitted_bytes: u64,
    pub mac_address: Seq<char>,
    pub ip_addresses: Seq<Seq<char>>,
}

/// The lower-case hexadecimal digit for a value below 16.
pub open spec fn hex_digit(value: int) -> char {
    seq!['0', '1', '2', '3', '4', '5', '6', '7', '8', '9', 'a', 'b', 'c', 'd', 'e', 'f'][value]
}

/// A byte as two hexadecimal digits.
pub open spec fn hex_pair(byte: u8) -> Seq<char> {
    seq![hex_digit(byte as int / 16), hex_digit(byte as int % 16)]
}

/// A hardware address as text: its six bytes as pairs of hexadecimal digits,
/// with a colon between one pair and the next.
pub open spec fn mac_text(mac: Seq<u8>) -> Seq<char> {
    hex_pair(mac[0]) + seq![':'] + hex_pair(mac[1]) + seq![':'] + hex_pair(mac[2]) + seq![':']
        + hex_pair(mac[3]) + seq![':'] + hex_pair(mac[4]) + seq![':'] + hex_pair(mac[5])
}

/// Formats a hardware address with `sysinfo::MacAddr`'s `Display`, which
/// writes each of the six bytes as two lower-case hexadecimal digits and puts
/// a colon between them. The contract says that the text is exactly that.
#[verifier::external_body]
fn format_mac(mac: &[u8; 6]) -> (text: String)
    ensures
        text@ == mac_text(mac@),
{
    sysinfo::MacAddr(*mac).to_string()
}

/// The text of each of `texts`, in order.
pub open spec fn text_views(texts: Seq<String>) -> Seq<Seq<char>> {
    texts.map_values(|text: String| text@)
}

impl InterfaceReading {
    /// The interface that this reading shows as.
    pub open spec fn projected(self) -> NetworkInterfaceView {
        NetworkInterfaceView {
            name: self.name@,
            received_bytes: self.total_received,
            transmitted_bytes: self.total_transmitted,
            mac_address: mac_text(self.mac_address@),
            ip_addresses: text_views(self.ip_addresses@),
        }
    }
}

impl View for NetworkInterface {
    type V = NetworkInterfaceView;

    closed spec fn view(&self) -> NetworkInterfaceView {
        NetworkInterfaceView {
            name: self.name@,
            received_bytes: self.received_bytes,
            transmitted_bytes: self.transmitted_bytes,
            mac_address: self.mac_address@,
            ip_addresses: text_views(self.ip_addresses@),
        }
    }
}

impl NetworkInterface {
    /// Projects one reading: the counters as they are, the hardware address
    /// as text, and the addresses in the order in which they were reported.
    pub fn from_reading(reading: &InterfaceReading) -> (interface: NetworkInterface)
        ensures
            interface@ == reading.projected(),
    {
        let mut ip_addresses: Vec<String> = Vec::new();
        let mut i: usize = 0;
        while i < reading.ip_addresses.len()
            invariant
                i <= reading.ip_addresses.len(),
                ip_addresses.len() == i,
                forall|k: int| 0 <= k < i ==> #[trigger] ip_addresses[k] == reading.ip_addresses[k],
            decreases reading.ip_addresses.len() - i,
        {
            ip_addresses.push(reading.ip_addresses[i].clone());
            i += 1;
        }
        assert(text_views(ip_addresses@) =~= text_views(reading.ip_addresses@));
        NetworkInterface {
            name: reading.name.clone(),
            received_bytes: reading.total_received,
            transmitted_bytes: reading.total_transmitted,
            mac_address: format_mac(&reading.mac_address),
            ip_addresses,
        }
    }

    pub fn name(&self) -> (name: &String)
        ensures
            name@ == self@.name,
    {
        &self.name
    }

    pub fn received_bytes(&self) -> (received: u64)
        ensures
            received == self@.received_bytes,
    {
        self.received_bytes
    }

    pub fn transmitted_bytes(&self) -> (transmitted: u64)
        ensures
            transmitted == self@.transmitted_bytes,
    {
        self.transmitted_bytes
    }

    pub fn mac_address(&self) -> (mac_address: &String)
        ensures
            mac_address@ == self@.mac_address,
    {
        &self.mac_address
    }

    pub fn ip_addresses(&self) -> (ip_addresses: &Vec<String>)
        ensures
            text_views(ip_addresses@) == self@.ip_addresses,
    {
        &self.ip_addresses
    }
}

/// What each of `interfaces` holds, in order.
pub open spec fn interface_views(interfaces: Seq<NetworkInterface>) -> Seq<NetworkInterfaceView> {
    interfaces.map_values(|interface: NetworkInterface| interface@)
}

/// The interfaces that `readings` show as, in order.
pub open spec fn projected_interfaces(readings: Seq<InterfaceReading>) -> Seq<
    NetworkInterfaceView,
> {
    readings.map_values(|reading: InterfaceReading| reading.projected())
}

/// Projects every reading, keeping the order in which they were reported.
pub fn interface_list(readings: &Vec<InterfaceReading>) -> (interfaces: Vec<NetworkInterface>)
    ensures
        interface_views(interfaces@) == projected_interfaces(readings@),
{
    let mut interfaces: Vec<NetworkInterface> = Vec::new();
    let mut i: usize = 0;
    while i < readings.len()
        invariant
            i <= readings.len(),
            interfaces.len() == i,
            forall|k: int| 0 <= k < i ==> (#[trigger] interfaces[k])@ == readings[k].projected(),
        decreases readings.len() - i,
    {
        interfaces.push(NetworkInterface::from_reading(&readings[i]));
        i += 1;
    }
    assert(interface_views(interfaces@) =~= projected_interfaces(readings@));
    interfaces
}

/// A hardware address is shown as seventeen characters.
pub proof fn lemma_mac_text_len(mac: Seq<u8>)
    ensures
        mac_text(mac).len() == 17,
{
}

} // verus!
