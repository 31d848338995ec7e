//! Network configuration of a microVM, and its TAP device on the host.

use vstd::prelude::*;
use vstd::string::*;

use crate::effect;
use crate::effect::{Effect, EffectView};
use crate::error::{Failure, OsError, OsResult};
use crate::ipv4;
use crate::json;
use crate::json::Json;
use crate::resource::NetworkLimits;
use crate::text;

verus! {

/// Network configuration for a microVM.
#[derive(Debug)]
pub struct NetworkConfig {
    /// Interface ID visible inside the guest (e.g. "eth0").
    pub iface_id: String,
    /// TAP device name on the host.
    pub host_dev_name: String,
    /// MAC address assigned to the guest NIC.
    pub guest_mac: String,
    /// Guest IP address (CIDR notation, e.g. "172.16.0.2/30").
    pub guest_ip: String,
    /// Gateway IP for guest traffic.
    pub gateway_ip: String,
    /// Subnet mask in short form (e.g. "/30").
    pub mask_short: String,
    /// Rate limits for this interface.
    pub rate_limits: Option<NetworkLimits>,
}

/// What a network configuration says.
pub struct NetworkView {
    pub iface_id: Seq<char>,
    pub host_dev_name: Seq<char>,
    pub guest_mac: Seq<char>,
    pub guest_ip: Seq<char>,
    pub gateway_ip: Seq<char>,
    pub mask_short: Seq<char>,
    pub rate_limits: Option<NetworkLimits>,
}

impl View for NetworkConfig {
    type V = NetworkView;

    open spec fn view(&self) -> NetworkView {
        NetworkView {
            iface_id: self.iface_id@,
            host_dev_name: self.host_dev_name@,
            guest_mac: self.guest_mac@,
            guest_ip: self.guest_ip@,
            gateway_ip: self.gateway_ip@,
            mask_short: self.mask_short@,
            rate_limits: self.rate_limits,
        }
    }
}

impl Clone for NetworkConfig {
    fn clone(&self) -> (r: Self)
        ensures
            r@ == self@,
    {
        NetworkConfig {
            iface_id: self.iface_id.clone(),
            host_dev_name: self.host_dev_name.clone(),
            guest_mac: self.guest_mac.clone(),
            guest_ip: self.guest_ip.clone(),
            gateway_ip: self.gateway_ip.clone(),
            mask_short: self.mask_short.clone(),
            rate_limits: self.rate_limits,
        }
    }
}

// ---------------------------------------------------------------------------
// What a configuration may hold
// ---------------------------------------------------------------------------
/// Is `s` the name of a TAP device that the manager makes: `tap` and digits?
pub open spec fn is_tap_name(s: Seq<char>) -> bool {
    match text::stripped(s, "tap"@) {
        Some(index) => index.len() > 0 && text::all_digits(index),
        None => false,
    }
}

/// Is `s` a netmask suffix: `/` and a number up to 32?
pub open spec fn is_mask_suffix(s: Seq<char>) -> bool {
    match text::stripped(s, "/"@) {
        Some(bits) => text::unsigned_value(bits) is Some && text::unsigned_value(bits)->0 <= 32,
        None => false,
    }
}

/// Does `s` end before its first `/`, or does a number follow on it?
pub open spec fn is_number_suffix(s: Seq<char>) -> bool {
    let head = text::before(s, '/');
    let number = s.skip(head.len() as int + 1);
    head.len() == s.len() || (number.len() > 0 && text::all_digits(number))
}

/// The error for a value that the manager does not make.
pub open spec fn invalid(kind: Seq<char>, value: Seq<char>, reason: Seq<char>) -> Failure {
    Failure::InvalidId { kind, value, reason }
}

pub open spec fn invalid_tap_name(name: Seq<char>) -> Failure {
    invalid("TAP device name"@, name, "must be 'tap' followed by digits"@)
}

pub open spec fn invalid_mask(mask: Seq<char>) -> Failure {
    invalid("netmask"@, mask, "must be '/N' with N between 0 and 32"@)
}

/// Is this a TAP device name that the manager generates?
///
/// The name is passed to `ip` and to Firecracker, so anything but `tapN` is
/// either a typo or an attempt to smuggle arguments in through a config file.
pub fn is_valid_tap_name(name: &str) -> (r: bool)
    ensures
        r == is_tap_name(name@),
{
    match text::strip_prefix(name, "tap") {
        Some(index) => !index.is_empty() && text::holds_digits_only(index),
        None => false,
    }
}

/// Is this a `/N` netmask suffix with a plausible prefix length?
pub fn is_valid_mask_short(mask: &str) -> (r: bool)
    ensures
        r == is_mask_suffix(mask@),
{
    match text::strip_prefix(mask, "/") {
        Some(bits) => text::parse_unsigned(bits, 32).is_some(),
        None => false,
    }
}

/// Is what follows on the first `/`, where there is one, a number?
fn has_number_suffix(s: &str) -> (r: bool)
    ensures
        r == is_number_suffix(s@),
{
    let n = text::cut_before(s, '/').unicode_len();
    let len = s.unicode_len();
    proof {
        text::lemma_before_splits(s@, '/');
    }
    if n == len {
        return true;
    }
    let number = s.substring_char(n + 1, len);
    assert(number@ =~= s@.skip(n + 1));
    !number.is_empty() && text::holds_digits_only(number)
}

impl NetworkView {
    /// The guest address without its `/N` suffix.
    pub open spec fn guest_address(self) -> Seq<char> {
        text::before(self.guest_ip, '/')
    }

    /// The first thing in a configuration that the manager would not have put there.
    pub open spec fn fault(self) -> Option<Failure> {
        if !is_tap_name(self.host_dev_name) {
            Some(invalid_tap_name(self.host_dev_name))
        } else if !ipv4::is_ipv4(self.gateway_ip) {
            Some(invalid("gateway IP"@, self.gateway_ip, "must be a bare IPv4 address"@))
        } else if !ipv4::is_ipv4(self.guest_address()) || !is_number_suffix(self.guest_ip) {
            Some(
                invalid(
                    "guest IP"@,
                    self.guest_ip,
                    "must be an IPv4 address, optionally with a /N suffix"@,
                ),
            )
        } else if !is_mask_suffix(self.mask_short) {
            Some(invalid_mask(self.mask_short))
        } else {
            None
        }
    }

    /// The kernel boot arguments that set the network up inside the guest.
    pub open spec fn boot_args(self) -> Seq<char> {
        "ip="@ + self.guest_address() + "::"@ + self.gateway_ip + ":255.255.255.252::"@
            + self.iface_id + ":off"@
    }

    /// The payload of the network-interfaces call of the Firecracker API.
    pub open spec fn payload(self) -> Json {
        let named = map![
            "iface_id"@ => Json::Text(self.iface_id),
            "guest_mac"@ => Json::Text(self.guest_mac),
            "host_dev_name"@ => Json::Text(self.host_dev_name),
        ];
        Json::Object(
            match self.rate_limits {
                Some(limits) => with_limiter(
                    with_limiter(named, "rx_rate_limiter"@, limits.rx_rate_bps),
                    "tx_rate_limiter"@,
                    limits.tx_rate_bps,
                ),
                None => named,
            },
        )
    }
}

/// `fields` with a bandwidth limiter under `key`, where there is a rate.
pub open spec fn with_limiter(
    fields: Map<Seq<char>, Json>,
    key: Seq<char>,
    rate: Option<u64>,
) -> Map<Seq<char>, Json> {
    match rate {
        Some(rate) => fields.insert(key, bandwidth_limiter(rate)),
        None => fields,
    }
}

/// A limiter that lets `rate` bytes through each second.
pub open spec fn bandwidth_limiter(rate: u64) -> Json {
    Json::Object(
        map![
            "bandwidth"@ => Json::Object(
                map![
                    "size"@ => Json::Integer(rate as int),
                    "refill_time"@ => Json::Integer(1000),
                ],
            ),
        ],
    )
}

fn bandwidth(rate: u64) -> (r: serde_json::Value)
    ensures
        json::json_of(r) == bandwidth_limiter(rate),
{
    let mut bucket = json::no_fields();
    json::put(&mut bucket, "size", json::number(rate));
    json::put(&mut bucket, "refill_time", json::number(1000));
    let mut limiter = json::no_fields();
    json::put(&mut limiter, "bandwidth", json::object(bucket));
    json::object(limiter)
}

// ---------------------------------------------------------------------------
// The configuration of a VM by its index
// ---------------------------------------------------------------------------
/// The third octet of the addresses of the VM with this index.
pub open spec fn subnet(index: nat) -> nat {
    index / 64
}

/// The last octet of the /30 block of the VM with this index.
pub open spec fn block(index: nat) -> nat {
    (index % 64) * 4
}

/// `172.16.{subnet}.{host}`
pub open spec fn address(index: nat, host: nat) -> Seq<char> {
    "172.16."@ + text::dec(subnet(index)) + "."@ + text::dec(block(index) + host)
}

/// The configuration of the VM with this index: the gateway is the first host
/// of its /30 block, the guest the second.
pub open spec fn network_for(index: nat) -> NetworkView {
    NetworkView {
        iface_id: "eth0"@,
        host_dev_name: "tap"@ + text::dec(index),
        guest_mac: "06:00:AC:"@ + text::hex2(subnet(index)) + ":"@ + text::hex2(0) + ":"@
            + text::hex2(block(index) + 2),
        guest_ip: address(index, 2) + "/30"@,
        gateway_ip: address(index, 1),
        mask_short: "/30"@,
        rate_limits: None,
    }
}

fn write_address(subnet: u32, host: u32) -> (r: String)
    ensures
        r@ == "172.16."@ + text::dec(subnet as nat) + "."@ + text::dec(host as nat),
{
    let mut s = "172.16.".to_string();
    s.append(text::decimal(subnet as u64).as_str());
    s.append(".");
    s.append(text::decimal(host as u64).as_str());
    s
}

impl NetworkConfig {
    /// Create a default network config for a given VM index.
    /// Each VM gets a unique /30 subnet carved from 172.16.{subnet}.0.
    pub fn for_vm_index(index: u32) -> (r: Self)
        ensures
            r@ == network_for(index as nat),
            r.host_dev_name@ == "tap"@ + text::dec(index as nat),
            r.gateway_ip@ == "172.16."@ + text::dec((index / 64) as nat) + "."@ + text::dec(
                ((index % 64) * 4 + 1) as nat,
            ),
            r.guest_ip@ == "172.16."@ + text::dec((index / 64) as nat) + "."@ + text::dec(
                ((index % 64) * 4 + 2) as nat,
            ) + "/30"@,
            r.guest_mac@ == "06:00:AC:"@ + text::hex2((index / 64) as nat) + ":"@ + text::hex2(0)
                + ":"@ + text::hex2(((index % 64) * 4 + 2) as nat),
            r.iface_id@ == "eth0"@,
            r.mask_short@ == "/30"@,
            r.rate_limits is None,
    {
        let subnet = index / 64;
        let offset = (index % 64) * 4;
        let gateway = offset + 1;
        let guest = offset + 2;
        assert((guest >> 8) & 0xFF == 0 && guest & 0xFF == guest) by (bit_vector)
            requires
                guest <= 254,
        ;
        let mut host_dev_name = "tap".to_string();
        host_dev_name.append(text::decimal(index as u64).as_str());
        let mut guest_mac = "06:00:AC:".to_string();
        guest_mac.append(text::hexadecimal2(subnet as u64).as_str());
        guest_mac.append(":");
        guest_mac.append(text::hexadecimal2(((guest >> 8) & 0xFF) as u64).as_str());
        guest_mac.append(":");
        guest_mac.append(text::hexadecimal2((guest & 0xFF) as u64).as_str());
        let mut guest_ip = write_address(subnet, guest);
        guest_ip.append("/30");
        NetworkConfig {
            iface_id: "eth0".to_string(),
            host_dev_name,
            guest_mac,
            guest_ip,
            gateway_ip: write_address(subnet, gateway),
            mask_short: "/30".to_string(),
            rate_limits: None,
        }
    }

    /// Apply network rate limits.
    pub fn with_limits(self, limits: NetworkLimits) -> (r: Self)
        ensures
            r@ == (NetworkView { rate_limits: Some(limits), ..self@ }),
    {
        let mut config = self;
        config.rate_limits = Some(limits);
        config
    }

    /// Generate the Firecracker network-interfaces API payload.
    pub fn to_firecracker_json(&self) -> (r: serde_json::Value)
        ensures
            json::json_of(r) == self@.payload(),
            json::json_of(r).member("iface_id"@) == Some(Json::Text(self.iface_id@)),
            json::json_of(r).member("guest_mac"@) == Some(Json::Text(self.guest_mac@)),
            json::json_of(r).member("host_dev_name"@) == Some(Json::Text(self.host_dev_name@)),
    {
        proof {
            law_network_payload(self@);
        }
        let mut payload = json::no_fields();
        json::put(&mut payload, "iface_id", json::text(self.iface_id.as_str()));
        json::put(&mut payload, "guest_mac", json::text(self.guest_mac.as_str()));
        json::put(&mut payload, "host_dev_name", json::text(self.host_dev_name.as_str()));
        if let Some(limits) = self.rate_limits {
            if let Some(rate) = limits.rx_rate_bps {
                json::put(&mut payload, "rx_rate_limiter", bandwidth(rate));
            }
            if let Some(rate) = limits.tx_rate_bps {
                json::put(&mut payload, "tx_rate_limiter", bandwidth(rate));
            }
        }
        json::object(payload)
    }

    /// Check that a config is one this crate could have produced.
    ///
    /// Call this immediately after deserializing a config from disk: the TAP
    /// name and gateway IP become arguments to `ip`, which runs as root.
    pub fn validate(&self) -> (r: OsResult<()>)
        ensures
            match r {
                Ok(_) => self@.fault() is None,
                Err(e) => self@.fault() == Some(e@),
            },
    {
        if !is_valid_tap_name(self.host_dev_name.as_str()) {
            return Err(
                OsError::InvalidId {
                    kind: "TAP device name",
                    value: self.host_dev_name.clone(),
                    reason: "must be 'tap' followed by digits",
                },
            );
        }
        if !ipv4::is_address(self.gateway_ip.as_str()) {
            return Err(
                OsError::InvalidId {
                    kind: "gateway IP",
                    value: self.gateway_ip.clone(),
                    reason: "must be a bare IPv4 address",
                },
            );
        }
        if !ipv4::is_address(text::cut_before(self.guest_ip.as_str(), '/')) || !has_number_suffix(
            self.guest_ip.as_str(),
        ) {
            return Err(
                OsError::InvalidId {
                    kind: "guest IP",
                    value: self.guest_ip.clone(),
                    reason: "must be an IPv4 address, optionally with a /N suffix",
                },
            );
        }
        if !is_valid_mask_short(self.mask_short.as_str()) {
            return Err(
                OsError::InvalidId {
                    kind: "netmask",
                    value: self.mask_short.clone(),
                    reason: "must be '/N' with N between 0 and 32",
                },
            );
        }
        Ok(())
    }

    /// Build kernel boot args for networking inside the guest.
    pub fn kernel_boot_args(&self) -> (r: String)
        ensures
            r@ == self@.boot_args(),
            r@ == "ip="@ + text::before(self.guest_ip@, '/') + "::"@ + self.gateway_ip@
                + ":255.255.255.252::"@ + self.iface_id@ + ":off"@,
    {
        let mut args = "ip=".to_string();
        args.append(text::cut_before(self.guest_ip.as_str(), '/'));
        args.append("::");
        args.append(self.gateway_ip.as_str());
        args.append(":255.255.255.252::");
        args.append(self.iface_id.as_str());
        args.append(":off");
        args
    }
}

// ---------------------------------------------------------------------------
// The TAP device
// ---------------------------------------------------------------------------
/// Commands to set up the TAP device on the host side.
#[derive(Debug)]
pub struct TapSetup {
    pub tap_name: String,
    pub tap_ip: String,
    pub mask_short: String,
}

/// What a TAP setup says.
pub struct TapView {
    pub tap_name: Seq<char>,
    pub tap_ip: Seq<char>,
    pub mask_short: Seq<char>,
}

impl View for TapSetup {
    type V = TapView;

    open spec fn view(&self) -> TapView {
        TapView {
            tap_name: self.tap_name@,
            tap_ip: self.tap_ip@,
            mask_short: self.mask_short@,
        }
    }
}

impl Clone for TapSetup {
    fn clone(&self) -> (r: Self)
        ensures
            r@ == self@,
    {
        TapSetup {
            tap_name: self.tap_name.clone(),
            tap_ip: self.tap_ip.clone(),
            mask_short: self.mask_short.clone(),
        }
    }
}

/// The TAP device of a network configuration.
pub open spec fn tap_of(network: NetworkView) -> TapView {
    TapView {
        tap_name: network.host_dev_name,
        tap_ip: network.gateway_ip,
        mask_short: network.mask_short,
    }
}

impl TapView {
    /// The first thing in a TAP setup that the manager would not have put there.
    pub open spec fn fault(self) -> Option<Failure> {
        if !is_tap_name(self.tap_name) {
            Some(invalid_tap_name(self.tap_name))
        } else if !ipv4::is_ipv4(self.tap_ip) {
            Some(invalid("TAP IP"@, self.tap_ip, "must be a bare IPv4 address"@))
        } else if !is_mask_suffix(self.mask_short) {
            Some(invalid_mask(self.mask_short))
        } else {
            None
        }
    }

    /// The arguments of `ip` that delete the device.
    pub open spec fn delete_words(self) -> Seq<Seq<char>> {
        seq!["link"@, "del"@, self.tap_name]
    }

    /// The arguments of each `ip` command that sets the device up.
    pub open spec fn setup_words(self) -> Seq<Seq<Seq<char>>> {
        seq![
            self.delete_words(),
            seq!["tuntap"@, "add"@, "dev"@, self.tap_name, "mode"@, "tap"@],
            seq!["addr"@, "add"@, self.tap_ip + self.mask_short, "dev"@, self.tap_name],
            seq!["link"@, "set"@, "dev"@, self.tap_name, "up"@],
        ]
    }

    /// The arguments of each `ip` command that tears the device down.
    pub open spec fn teardown_words(self) -> Seq<Seq<Seq<char>>> {
        seq![self.delete_words()]
    }

    /// What is asked of the host to set the device up: the `ip` commands, and
    /// then that IPv4 forwarding be switched on.
    pub open spec fn setup_effects(self) -> Seq<EffectView> {
        Seq::new(
            self.setup_words().len(),
            |i: int| EffectView::Ip { argv: self.setup_words()[i] },
        ).push(
            EffectView::Write { path: "/proc/sys/net/ipv4/ip_forward"@, contents: "1"@ },
        )
    }

    /// What is asked of the host to tear the device down.
    pub open spec fn teardown_effects(self) -> Seq<EffectView> {
        seq![EffectView::Ip { argv: self.delete_words() }]
    }
}

impl TapSetup {
    pub fn from_config(config: &NetworkConfig) -> (r: Self)
        ensures
            r@ == tap_of(config@),
    {
        TapSetup {
            tap_name: config.host_dev_name.clone(),
            tap_ip: config.gateway_ip.clone(),
            mask_short: config.mask_short.clone(),
        }
    }

    /// Reject a TAP config that could not have come from `NetworkConfig`.
    ///
    /// `setup`/`teardown` run `ip` as root, so a config deserialized from a
    /// tampered `vm-config.json` must not reach them.
    pub fn validate(&self) -> (r: OsResult<()>)
        ensures
            match r {
                Ok(_) => self@.fault() is None,
                Err(e) => self@.fault() == Some(e@),
            },
    {
        if !is_valid_tap_name(self.tap_name.as_str()) {
            return Err(
                OsError::InvalidId {
                    kind: "TAP device name",
                    value: self.tap_name.clone(),
                    reason: "must be 'tap' followed by digits",
                },
            );
        }
        if !ipv4::is_address(self.tap_ip.as_str()) {
            return Err(
                OsError::InvalidId {
                    kind: "TAP IP",
                    value: self.tap_ip.clone(),
                    reason: "must be a bare IPv4 address",
                },
            );
        }
        if !is_valid_mask_short(self.mask_short.as_str()) {
            return Err(
                OsError::InvalidId {
                    kind: "netmask",
                    value: self.mask_short.clone(),
                    reason: "must be '/N' with N between 0 and 32",
                },
            );
        }
        Ok(())
    }

    fn delete_argv(&self) -> (r: Vec<String>)
        ensures
            r.deep_view() == self@.delete_words(),
    {
        let r = vec!["link".to_string(), "del".to_string(), self.tap_name.clone()];
        assert(r.deep_view() =~= self@.delete_words());
        r
    }

    fn create_argv(&self) -> (r: Vec<String>)
        ensures
            r.deep_view() == self@.setup_words()[1],
    {
        let r = vec![
            "tuntap".to_string(),
            "add".to_string(),
            "dev".to_string(),
            self.tap_name.clone(),
            "mode".to_string(),
            "tap".to_string(),
        ];
        assert(r.deep_view() =~= self@.setup_words()[1]);
        r
    }

    fn address_argv(&self) -> (r: Vec<String>)
        ensures
            r.deep_view() == self@.setup_words()[2],
    {
        let mut addr = self.tap_ip.clone();
        addr.append(self.mask_short.as_str());
        let r = vec![
            "addr".to_string(),
            "add".to_string(),
            addr,
            "dev".to_string(),
            self.tap_name.clone(),
        ];
        assert(r.deep_view() =~= self@.setup_words()[2]);
        r
    }

    fn enable_argv(&self) -> (r: Vec<String>)
        ensures
            r.deep_view() == self@.setup_words()[3],
    {
        let r = vec![
            "link".to_string(),
            "set".to_string(),
            "dev".to_string(),
            self.tap_name.clone(),
            "up".to_string(),
        ];
        assert(r.deep_view() =~= self@.setup_words()[3]);
        r
    }

    /// The `ip` argument vectors that create and configure the TAP device.
    ///
    /// These are argv, not shell strings: no interpolated value is ever parsed
    /// by a shell. The first clears a leftover device from a previous run, and
    /// is expected to fail when there is none.
    pub fn setup_argv(&self) -> (r: Vec<Vec<String>>)
        ensures
            r.deep_view() == self@.setup_words(),
    {
        let r = vec![
            self.delete_argv(),
            self.create_argv(),
            self.address_argv(),
            self.enable_argv(),
        ];
        assert(r.deep_view() =~= self@.setup_words());
        r
    }

    /// The `ip` argument vector that tears the TAP device down.
    pub fn teardown_argv(&self) -> (r: Vec<Vec<String>>)
        ensures
            r.deep_view() == self@.teardown_words(),
    {
        let r = vec![self.delete_argv()];
        assert(r.deep_view() =~= self@.teardown_words());
        r
    }

    /// Set up the TAP device on the host: what to do, in order.
    ///
    /// None of it is essential: each effect is to be performed whatever came
    /// of the one before.
    pub fn setup(&self) -> (r: OsResult<Vec<Effect>>)
        ensures
            match r {
                Ok(effects) => self@.fault() is None && effect::asked_all(effects@)
                    == self@.setup_effects(),
                Err(e) => self@.fault() == Some(e@),
            },
    {
        self.validate()?;
        let r = vec![
            Effect::Ip { argv: self.delete_argv() },
            Effect::Ip { argv: self.create_argv() },
            Effect::Ip { argv: self.address_argv() },
            Effect::Ip { argv: self.enable_argv() },
            Effect::Write {
                path: "/proc/sys/net/ipv4/ip_forward".to_string(),
                contents: "1".to_string(),
            },
        ];
        assert(effect::asked_all(r@) =~= self@.setup_effects());
        Ok(r)
    }

    /// The effect that deletes the device.
    pub(crate) fn deletion(&self) -> (r: Effect)
        ensures
            r@ == (EffectView::Ip { argv: self@.delete_words() }),
    {
        Effect::Ip { argv: self.delete_argv() }
    }

    /// Tear down the TAP device: what to do. It may fail without harm, as when
    /// there is no such device.
    pub fn teardown(&self) -> (r: OsResult<Vec<Effect>>)
        ensures
            match r {
                Ok(effects) => self@.fault() is None && effect::asked_all(effects@)
                    == self@.teardown_effects(),
                Err(e) => self@.fault() == Some(e@),
            },
    {
        self.validate()?;
        let r = vec![self.deletion()];
        assert(effect::asked_all(r@) =~= self@.teardown_effects());
        Ok(r)
    }
}

// ---------------------------------------------------------------------------
// Laws
// ---------------------------------------------------------------------------
/// Two VMs with different indices share no TAP device, no address and no MAC.
pub proof fn law_indices_get_distinct_networks(i: u32, j: u32)
    requires
        i != j,
    ensures
        network_for(i as nat).host_dev_name != network_for(j as nat).host_dev_name,
        network_for(i as nat).guest_ip != network_for(j as nat).guest_ip,
        network_for(i as nat).gateway_ip != network_for(j as nat).gateway_ip,
        network_for(i as nat).guest_mac != network_for(j as nat).guest_mac,
{
    let a = network_for(i as nat);
    let b = network_for(j as nat);
    if a.host_dev_name == b.host_dev_name {
        let n = "tap"@.len() as int;
        assert(a.host_dev_name.skip(n) =~= text::dec(i as nat));
        assert(b.host_dev_name.skip(n) =~= text::dec(j as nat));
        text::lemma_dec_injective(i as nat, j as nat);
    }
    if a.gateway_ip == b.gateway_ip {
        lemma_address_tells_index(i as nat, j as nat, 1);
    }
    if a.guest_ip == b.guest_ip {
        let n = a.guest_ip.len() - "/30"@.len();
        assert(a.guest_ip.take(n) =~= address(i as nat, 2));
        assert(b.guest_ip.take(n) =~= address(j as nat, 2));
        lemma_address_tells_index(i as nat, j as nat, 2);
    }
    if a.guest_mac == b.guest_mac {
        lemma_mac_tells_index(i as nat, j as nat);
    }
}

/// The addresses of a VM lie in a block of four that no other VM has a part of.
pub proof fn law_each_index_has_its_own_block(i: u32, j: u32)
    ensures
        block(i as nat) % 4 == 0,
        block(i as nat) + 3 <= 255,
        i != j ==> subnet(i as nat) != subnet(j as nat) || block(i as nat) + 3 < block(j as nat)
            || block(j as nat) + 3 < block(i as nat),
{
}

/// The configuration of a VM is accepted as one that the manager makes, as
/// long as its subnet is an octet.
pub proof fn law_generated_config_validates(index: u32)
    ensures
        network_for(index as nat).fault() is None <==> index < 0x4000,
        index < 0x4000 ==> tap_of(network_for(index as nat)).fault() is None,
{
    let n = index as nat;
    let network = network_for(n);
    reveal_strlit("tap");
    reveal_strlit("/");
    reveal_strlit("/30");
    text::lemma_dec(n);
    assert(network.host_dev_name.skip(3) =~= text::dec(n));
    assert("tap"@ =~= network.host_dev_name.subrange(0, 3));
    assert(is_tap_name(network.host_dev_name));
    assert("/30"@.skip(1) =~= seq!['3', '0']);
    assert("/"@ =~= "/30"@.subrange(0, 1));
    let bits = seq!['3', '0'];
    assert(bits.drop_last() =~= seq!['3']);
    assert(bits.drop_last().drop_last() =~= seq![]);
    reveal_with_fuel(text::digits_value, 3);
    assert(is_mask_suffix(network.mask_short));
    lemma_address_is_dotted(n, 1);
    lemma_address_is_dotted(n, 2);
    lemma_no_slash(n, 2);
    assert(network.guest_ip =~= address(n, 2) + seq!['/'] + seq!['3', '0']);
    text::lemma_before(address(n, 2), '/', seq!['3', '0']);
    assert(network.guest_address() == address(n, 2));
    assert(network.guest_ip.skip(address(n, 2).len() as int + 1) =~= seq!['3', '0']);
    assert(is_number_suffix(network.guest_ip));
    if index < 0x4000 {
        let third = subnet(n) as u8;
        let gateway = (block(n) + 1) as u8;
        let guest = (block(n) + 2) as u8;
        assert(network.gateway_ip == ipv4::dotted(
            172u8 as nat,
            16u8 as nat,
            third as nat,
            gateway as nat,
        ));
        assert(network.guest_address() == ipv4::dotted(
            172u8 as nat,
            16u8 as nat,
            third as nat,
            guest as nat,
        ));
    } else {
        assert forall|a: u8, b: u8, c: u8, d: u8|
            network.gateway_ip != #[trigger] ipv4::dotted(
                a as nat,
                b as nat,
                c as nat,
                d as nat,
            ) by {
            if network.gateway_ip == ipv4::dotted(a as nat, b as nat, c as nat, d as nat) {
                let x2 = text::dec(block(n) + 1);
                let x1 = ipv4::octet_then(subnet(n), x2);
                let x0 = ipv4::octet_then(16, x1);
                let y2 = text::dec(d as nat);
                let y1 = ipv4::octet_then(c as nat, y2);
                let y0 = ipv4::octet_then(b as nat, y1);
                ipv4::lemma_octet_then(172, x0, a as nat, y0);
                ipv4::lemma_octet_then(16, x1, b as nat, y1);
                ipv4::lemma_octet_then(subnet(n), x2, c as nat, y2);
            }
        }
    }
}

/// Rate limits do not bear on whether a configuration is accepted.
pub proof fn law_limits_keep_validity(network: NetworkView, limits: NetworkLimits)
    ensures
        (NetworkView { rate_limits: Some(limits), ..network }).fault() == network.fault(),
{
}

/// The TAP setup of an accepted configuration is accepted.
pub proof fn law_valid_config_gives_valid_tap(network: NetworkView)
    requires
        network.fault() is None,
    ensures
        tap_of(network).fault() is None,
{
}

proof fn lemma_two_octets()
    ensures
        "172.16."@ == text::dec(172) + seq!['.'] + text::dec(16) + seq!['.'],
        "."@ == seq!['.'],
{
    reveal_strlit("172.16.");
    reveal_strlit(".");
    reveal_with_fuel(text::dec, 4);
    assert(text::dec(172) =~= seq!['1', '7', '2']);
    assert(text::dec(16) =~= seq!['1', '6']);
    assert("172.16."@ =~= text::dec(172) + seq!['.'] + text::dec(16) + seq!['.']);
    assert("."@ =~= seq!['.']);
}

proof fn lemma_address_is_dotted(index: nat, host: nat)
    ensures
        address(index, host) == ipv4::dotted(172, 16, subnet(index), block(index) + host),
{
    lemma_two_octets();
    assert(address(index, host) =~= ipv4::dotted(172, 16, subnet(index), block(index) + host));
}

proof fn lemma_address_tells_index(i: nat, j: nat, host: nat)
    requires
        address(i, host) == address(j, host),
    ensures
        i == j,
{
    lemma_address_is_dotted(i, host);
    lemma_address_is_dotted(j, host);
    let x2 = text::dec(block(i) + host);
    let x1 = ipv4::octet_then(subnet(i), x2);
    let x0 = ipv4::octet_then(16, x1);
    let y2 = text::dec(block(j) + host);
    let y1 = ipv4::octet_then(subnet(j), y2);
    let y0 = ipv4::octet_then(16, y1);
    ipv4::lemma_octet_then(172, x0, 172, y0);
    ipv4::lemma_octet_then(16, x1, 16, y1);
    ipv4::lemma_octet_then(subnet(i), x2, subnet(j), y2);
    text::lemma_dec_injective(block(i) + host, block(j) + host);
}

proof fn lemma_no_slash(index: nat, host: nat)
    ensures
        !address(index, host).contains('/'),
{
    lemma_two_octets();
    text::lemma_dec(172);
    text::lemma_dec(16);
    text::lemma_dec(subnet(index));
    text::lemma_dec(block(index) + host);
    let s = address(index, host);
    let a = text::dec(172);
    let b = text::dec(16);
    let c = text::dec(subnet(index));
    let d = text::dec(block(index) + host);
    let dot = seq!['.'];
    assert(s =~= a + dot + b + dot + c + dot + d);
    assert forall|i: int| 0 <= i < s.len() implies text::is_digit(#[trigger] s[i]) || s[i] == '.' by {
        let n0 = a.len() as int;
        let n1 = n0 + 1 + b.len();
        let n2 = n1 + 1 + c.len();
        if i < n0 {
            assert(s[i] == a[i]);
        } else if i == n0 {
        } else if i < n1 {
            assert(s[i] == b[i - n0 - 1]);
        } else if i == n1 {
        } else if i < n2 {
            assert(s[i] == c[i - n1 - 1]);
        } else if i == n2 {
        } else {
            assert(s[i] == d[i - n2 - 1]);
        }
    }
    if s.contains('/') {
        let i = choose|i: int| 0 <= i < s.len() && s[i] == '/';
        assert(text::is_digit(s[i]) || s[i] == '.');
    }
}

proof fn lemma_mac_tells_index(i: nat, j: nat)
    requires
        network_for(i).guest_mac == network_for(j).guest_mac,
    ensures
        i == j,
{
    reveal_strlit(":");
    let a = network_for(i).guest_mac;
    let b = network_for(j).guest_mac;
    let n = "06:00:AC:"@.len() as int;
    let colon = seq![':'];
    assert(":"@ =~= colon);
    let x1 = text::hex2(0) + colon + text::hex2(block(i) + 2);
    let y1 = text::hex2(0) + colon + text::hex2(block(j) + 2);
    assert(a.skip(n) =~= text::hex2(subnet(i)) + colon + x1);
    assert(b.skip(n) =~= text::hex2(subnet(j)) + colon + y1);
    text::lemma_hex2_no_colon(subnet(i));
    text::lemma_hex2_no_colon(subnet(j));
    text::lemma_before(text::hex2(subnet(i)), ':', x1);
    text::lemma_before(text::hex2(subnet(j)), ':', y1);
    text::lemma_hex2_injective(subnet(i), subnet(j));
    let k = text::hex2(subnet(i)).len() as int + 1;
    assert(a.skip(n).skip(k) =~= x1);
    assert(b.skip(n).skip(k) =~= y1);
    let m = text::hex2(0).len() as int + 1;
    assert(x1.skip(m) =~= text::hex2(block(i) + 2));
    assert(y1.skip(m) =~= text::hex2(block(j) + 2));
    text::lemma_hex2_injective(block(i) + 2, block(j) + 2);
}

proof fn lemma_payload_keys()
    ensures
        "iface_id"@ != "guest_mac"@,
        "iface_id"@ != "host_dev_name"@,
        "guest_mac"@ != "host_dev_name"@,
        "rx_rate_limiter"@ != "tx_rate_limiter"@,
        "rx_rate_limiter"@ != "iface_id"@,
        "rx_rate_limiter"@ != "guest_mac"@,
        "rx_rate_limiter"@ != "host_dev_name"@,
        "tx_rate_limiter"@ != "iface_id"@,
        "tx_rate_limiter"@ != "guest_mac"@,
        "tx_rate_limiter"@ != "host_dev_name"@,
        "size"@ != "refill_time"@,
{
    reveal_strlit("iface_id");
    reveal_strlit("guest_mac");
    reveal_strlit("host_dev_name");
    reveal_strlit("rx_rate_limiter");
    reveal_strlit("tx_rate_limiter");
    reveal_strlit("size");
    reveal_strlit("refill_time");
    assert("iface_id"@[0] == 'i' && "guest_mac"@[0] == 'g' && "host_dev_name"@[0] == 'h');
    assert("rx_rate_limiter"@[0] == 'r' && "tx_rate_limiter"@[0] == 't');
    assert("size"@[0] == 's' && "refill_time"@[0] == 'r');
}

/// The size and the refill time of the bandwidth limiter under a key of a payload.
pub open spec fn limiter_member(payload: Json, key: Seq<char>, name: Seq<char>) -> Option<Json> {
    match payload.member(key) {
        Some(limiter) => match limiter.member("bandwidth"@) {
            Some(bucket) => bucket.member(name),
            None => None,
        },
        None => None,
    }
}

/// Firecracker is told the interface, the MAC and the TAP device that the
/// configuration names, and nothing else but a limiter for each direction that
/// has a rate: so many bytes in each second.
pub proof fn law_network_payload(network: NetworkView)
    ensures
        network.payload().member("iface_id"@) == Some(Json::Text(network.iface_id)),
        network.payload().member("guest_mac"@) == Some(Json::Text(network.guest_mac)),
        network.payload().member("host_dev_name"@) == Some(Json::Text(network.host_dev_name)),
        forall|key: Seq<char>| #[trigger]
            network.payload().member(key) is Some ==> key == "iface_id"@ || key == "guest_mac"@
                || key == "host_dev_name"@ || key == "rx_rate_limiter"@ || key
                == "tx_rate_limiter"@,
        ({
            let rx = match network.rate_limits {
                Some(limits) => limits.rx_rate_bps,
                None => None,
            };
            let tx = match network.rate_limits {
                Some(limits) => limits.tx_rate_bps,
                None => None,
            };
            let payload = network.payload();
            &&& payload.member("rx_rate_limiter"@) is Some <==> rx is Some
            &&& payload.member("tx_rate_limiter"@) is Some <==> tx is Some
            &&& rx is Some ==> limiter_member(payload, "rx_rate_limiter"@, "size"@) == Some(
                Json::Integer(rx->0 as int),
            )
            &&& tx is Some ==> limiter_member(payload, "tx_rate_limiter"@, "size"@) == Some(
                Json::Integer(tx->0 as int),
            )
            &&& rx is Some ==> limiter_member(payload, "rx_rate_limiter"@, "refill_time"@) == Some(
                Json::Integer(1000),
            )
            &&& tx is Some ==> limiter_member(payload, "tx_rate_limiter"@, "refill_time"@) == Some(
                Json::Integer(1000),
            )
        }),
{
    lemma_payload_keys();
}

/// The boot arguments of a VM name the guest address and the gateway of its own
/// configuration. For an index, both lie in its own block of four: the gateway
/// is the first host of the block and the address of the TAP device, and the
/// guest is the second.
pub proof fn law_boot_args_name_the_own_gateway(network: NetworkView, index: u32)
    ensures
        network.boot_args() == "ip="@ + text::before(network.guest_ip, '/') + "::"@
            + network.gateway_ip + ":255.255.255.252::"@ + network.iface_id + ":off"@,
        ({
            let own = network_for(index as nat);
            let first = ((index % 64) * 4) as nat;
            let prefix = "172.16."@ + text::dec((index / 64) as nat) + "."@;
            &&& own.gateway_ip == prefix + text::dec(first + 1)
            &&& own.guest_address() == prefix + text::dec(first + 2)
            &&& own.guest_ip == prefix + text::dec(first + 2) + "/30"@
            &&& own.mask_short == "/30"@
            &&& tap_of(own).tap_ip == own.gateway_ip
            &&& tap_of(own).mask_short == own.mask_short
            &&& tap_of(own).tap_name == own.host_dev_name
            &&& own.host_dev_name == "tap"@ + text::dec(index as nat)
            &&& own.iface_id == "eth0"@
            &&& own.boot_args() == "ip="@ + prefix + text::dec(first + 2) + "::"@ + prefix
                + text::dec(first + 1) + ":255.255.255.252::eth0:off"@
        }),
{
    let n = index as nat;
    let own = network_for(n);
    let first = ((index % 64) * 4) as nat;
    let prefix = "172.16."@ + text::dec((index / 64) as nat) + "."@;
    lemma_no_slash(n, 2);
    reveal_strlit("/30");
    assert(own.guest_ip =~= address(n, 2) + seq!['/'] + seq!['3', '0']);
    text::lemma_before(address(n, 2), '/', seq!['3', '0']);
    assert(own.guest_address() == address(n, 2));
    reveal_strlit(":255.255.255.252::");
    reveal_strlit("eth0");
    reveal_strlit(":off");
    reveal_strlit(":255.255.255.252::eth0:off");
    assert(":255.255.255.252::"@ + "eth0"@ + ":off"@ =~= ":255.255.255.252::eth0:off"@);
    assert(own.boot_args() =~= "ip="@ + prefix + text::dec(first + 2) + "::"@ + prefix + text::dec(
        first + 1,
    ) + (":255.255.255.252::"@ + "eth0"@ + ":off"@));
}

/// A configuration is accepted if and only if its TAP device is named `tap` and
/// digits, its gateway is an IPv4 address, its guest address is one with at most
/// a number behind a slash, and its mask is a slash and a number up to 32.
pub proof fn law_accepted_network(network: NetworkView)
    ensures
        network.fault() is None <==> {
            let name = network.host_dev_name;
            let guest = text::before(network.guest_ip, '/');
            let number = network.guest_ip.skip(guest.len() as int + 1);
            &&& name.len() > 3 && name[0] == 't' && name[1] == 'a' && name[2] == 'p'
            &&& forall|i: int| 3 <= i < name.len() ==> '0' <= #[trigger] name[i] <= '9'
            &&& ipv4::is_ipv4(network.gateway_ip)
            &&& ipv4::is_ipv4(guest)
            &&& guest == network.guest_ip || (number.len() > 0 && text::all_digits(number))
            &&& network.mask_short.len() > 0 && network.mask_short[0] == '/'
            &&& text::unsigned_value(network.mask_short.skip(1)) is Some
            &&& text::unsigned_value(network.mask_short.skip(1))->0 <= 32
        },
        tap_of(network).fault() is None <==> {
            let name = network.host_dev_name;
            &&& name.len() > 3 && name[0] == 't' && name[1] == 'a' && name[2] == 'p'
            &&& forall|i: int| 3 <= i < name.len() ==> '0' <= #[trigger] name[i] <= '9'
            &&& ipv4::is_ipv4(network.gateway_ip)
            &&& network.mask_short.len() > 0 && network.mask_short[0] == '/'
            &&& text::unsigned_value(network.mask_short.skip(1)) is Some
            &&& text::unsigned_value(network.mask_short.skip(1))->0 <= 32
        },
{
    let name = network.host_dev_name;
    let mask = network.mask_short;
    lemma_tap_name(name);
    reveal_strlit("/");
    if mask.len() > 0 && mask[0] == '/' {
        assert("/"@ =~= mask.subrange(0, 1));
    }
    if "/"@.is_prefix_of(mask) {
        assert(mask.subrange(0, 1)[0] == "/"@[0]);
    }
    text::lemma_before_splits(network.guest_ip, '/');
    let guest = text::before(network.guest_ip, '/');
    if guest.len() == network.guest_ip.len() {
        assert(guest =~= network.guest_ip);
    }
}

proof fn lemma_tap_name(name: Seq<char>)
    ensures
        is_tap_name(name) <==> {
            &&& name.len() > 3 && name[0] == 't' && name[1] == 'a' && name[2] == 'p'
            &&& forall|i: int| 3 <= i < name.len() ==> '0' <= #[trigger] name[i] <= '9'
        },
{
    reveal_strlit("tap");
    let begins = name.len() >= 3 && name[0] == 't' && name[1] == 'a' && name[2] == 'p';
    if begins {
        assert("tap"@ =~= name.subrange(0, 3));
    }
    if "tap"@.is_prefix_of(name) {
        assert(name.subrange(0, 3)[0] == "tap"@[0]);
        assert(name.subrange(0, 3)[1] == "tap"@[1]);
        assert(name.subrange(0, 3)[2] == "tap"@[2]);
        let rest = name.skip(3);
        if text::all_digits(rest) {
            assert forall|i: int| 3 <= i < name.len() implies '0' <= #[trigger] name[i] <= '9' by {
                assert(text::is_digit(rest[i - 3]));
            }
        }
        if forall|i: int| 3 <= i < name.len() ==> '0' <= #[trigger] name[i] <= '9' {
            assert forall|i: int| 0 <= i < rest.len() implies text::is_digit(
                #[trigger] rest[i],
            ) by {
                assert(rest[i] == name[i + 3]);
            }
        }
    }
}

/// What is done to set up and to tear down the TAP device of a configuration:
/// a leftover is deleted, the device is made, gets the address of the gateway
/// with the mask, and is brought up; then forwarding is switched on.
pub proof fn law_tap_commands(network: NetworkView)
    ensures
        ({
            let tap = tap_of(network);
            let name = network.host_dev_name;
            &&& tap.setup_words() == seq![
                seq!["link"@, "del"@, name],
                seq!["tuntap"@, "add"@, "dev"@, name, "mode"@, "tap"@],
                seq!["addr"@, "add"@, network.gateway_ip + network.mask_short, "dev"@, name],
                seq!["link"@, "set"@, "dev"@, name, "up"@],
            ]
            &&& tap.teardown_words() == seq![seq!["link"@, "del"@, name]]
            &&& tap.setup_effects() == seq![
                EffectView::Ip { argv: seq!["link"@, "del"@, name] },
                EffectView::Ip { argv: seq!["tuntap"@, "add"@, "dev"@, name, "mode"@, "tap"@] },
                EffectView::Ip {
                    argv: seq![
                        "addr"@,
                        "add"@,
                        network.gateway_ip + network.mask_short,
                        "dev"@,
                        name,
                    ],
                },
                EffectView::Ip { argv: seq!["link"@, "set"@, "dev"@, name, "up"@] },
                EffectView::Write { path: "/proc/sys/net/ipv4/ip_forward"@, contents: "1"@ },
            ]
            &&& tap.teardown_effects() == seq![EffectView::Ip { argv: seq!["link"@, "del"@, name] }]
        }),
{
    let tap = tap_of(network);
    let name = network.host_dev_name;
    assert(tap.setup_effects() =~= seq![
        EffectView::Ip { argv: tap.setup_words()[0] },
        EffectView::Ip { argv: tap.setup_words()[1] },
        EffectView::Ip { argv: tap.setup_words()[2] },
        EffectView::Ip { argv: tap.setup_words()[3] },
        EffectView::Write { path: "/proc/sys/net/ipv4/ip_forward"@, contents: "1"@ },
    ]);
}

/// The first thing that is wrong with a network is what is reported: the name of
/// the device, the gateway, the guest address, the mask.
pub proof fn law_first_network_fault(network: NetworkView)
    ensures
        ({
            let name_is_right = is_tap_name(network.host_dev_name);
            let gateway_is_right = ipv4::is_ipv4(network.gateway_ip);
            let guest = text::before(network.guest_ip, '/');
            let number = network.guest_ip.skip(guest.len() as int + 1);
            let guest_is_right = ipv4::is_ipv4(guest) && (guest.len() == network.guest_ip.len() || (
            number.len() > 0 && text::all_digits(number)));
            let name_fault = Failure::InvalidId {
                kind: "TAP device name"@,
                value: network.host_dev_name,
                reason: "must be 'tap' followed by digits"@,
            };
            let mask_fault = Failure::InvalidId {
                kind: "netmask"@,
                value: network.mask_short,
                reason: "must be '/N' with N between 0 and 32"@,
            };
            &&& !name_is_right ==> network.fault() == Some(name_fault)
            &&& name_is_right && !gateway_is_right ==> network.fault() == Some(
                Failure::InvalidId {
                    kind: "gateway IP"@,
                    value: network.gateway_ip,
                    reason: "must be a bare IPv4 address"@,
                },
            )
            &&& name_is_right && gateway_is_right && !guest_is_right ==> network.fault() == Some(
                Failure::InvalidId {
                    kind: "guest IP"@,
                    value: network.guest_ip,
                    reason: "must be an IPv4 address, optionally with a /N suffix"@,
                },
            )
            &&& name_is_right && gateway_is_right && guest_is_right && network.fault() is Some
                ==> network.fault() == Some(mask_fault)
            &&& !name_is_right ==> tap_of(network).fault() == Some(name_fault)
            &&& name_is_right && !gateway_is_right ==> tap_of(network).fault() == Some(
                Failure::InvalidId {
                    kind: "TAP IP"@,
                    value: network.gateway_ip,
                    reason: "must be a bare IPv4 address"@,
                },
            )
            &&& name_is_right && gateway_is_right && tap_of(network).fault() is Some ==> tap_of(
                network,
            ).fault() == Some(mask_fault)
        }),
{
}

} // verus!
