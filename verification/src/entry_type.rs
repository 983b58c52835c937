//! The keywords of an `ssh_config` host block.

use vstd::prelude::*;

verus! {

/// Number of distinct keywords; every keyword has a code below this bound.
pub const ENTRY_TYPE_COUNT: u8 = 100;

/// A keyword that can appear inside a host block of an SSH configuration.
#[derive(Clone, Copy, Debug, PartialEq, Eq, Hash, Structural)]
pub enum EntryType {
    AddKeysToAgent,
    AddressFamily,
    BatchMode,
    BindAddress,
    BindInterface,
    CASignatureAlgorithms,
    CanonicalDomains,
    CanonicalizeFallbackLocal,
    CanonicalizeHostname,
    CanonicalizeMaxDots,
    CanonicalizePermittedCNAMEs,
    CertificateFile,
    ChannelTimeout,
    CheckHostIP,
    Ciphers,
    ClearAllForwardings,
    Compression,
    ConnectTimeout,
    ConnectionAttempts,
    ControlMaster,
    ControlPath,
    ControlPersist,
    DynamicForward,
    EnableEscapeCommandline,
    EnableSSHKeysign,
    EscapeChar,
    ExitOnForwardFailure,
    FingerprintHash,
    ForkAfterAuthentication,
    ForwardAgent,
    ForwardX11,
    ForwardX11Timeout,
    ForwardX11Trusted,
    GSSAPIAuthentication,
    GSSAPIDelegateCredentials,
    GatewayPorts,
    GlobalKnownHostsFile,
    HashKnownHosts,
    HostKeyAlgorithms,
    HostKeyAlias,
    HostbasedAcceptedAlgorithms,
    HostbasedAuthentication,
    Hostname,
    IPQoS,
    IdentitiesOnly,
    IdentityAgent,
    IdentityFile,
    IgnoreUnknown,
    Include,
    KbdInteractiveAuthentication,
    KbdInteractiveDevices,
    KexAlgorithms,
    KnownHostsCommand,
    LocalCommand,
    LocalForward,
    LogLevel,
    LogVerbose,
    MACs,
    Match,
    NoHostAuthenticationForLocalhost,
    NumberOfPasswordPrompts,
    ObscureKeystrokeTiming,
    PKCS11Provider,
    PasswordAuthentication,
    PermitLocalCommand,
    PermitRemoteOpen,
    Port,
    PreferredAuthentications,
    ProxyCommand,
    ProxyJump,
    ProxyUseFdpass,
    PubkeyAcceptedAlgorithms,
    PubkeyAuthentication,
    RekeyLimit,
    RemoteCommand,
    RemoteForward,
    RequestTTY,
    RequiredRSASize,
    RevokedHostKeys,
    SecurityKeyProvider,
    SendEnv,
    ServerAliveCountMax,
    ServerAliveInterval,
    SessionType,
    SetEnv,
    StdinNull,
    StreamLocalBindMask,
    StreamLocalBindUnlink,
    StrictHostKeyChecking,
    SyslogFacility,
    TCPKeepAlive,
    Tag,
    Tunnel,
    TunnelDevice,
    UpdateHostKeys,
    User,
    UserKnownHostsFile,
    VerifyHostKeyDNS,
    VisualHostKey,
    XAuthLocation,
}

impl EntryType {
    /// The dense numeric code of a keyword, in `0..ENTRY_TYPE_COUNT`.
    pub open spec fn spec_code(self) -> u8 {
        match self {
            EntryType::AddKeysToAgent => 0,
            EntryType::AddressFamily => 1,
            EntryType::BatchMode => 2,
            EntryType::BindAddress => 3,
            EntryType::BindInterface => 4,
            EntryType::CASignatureAlgorithms => 5,
            EntryType::CanonicalDomains => 6,
            EntryType::CanonicalizeFallbackLocal => 7,
            EntryType::CanonicalizeHostname => 8,
            EntryType::CanonicalizeMaxDots => 9,
            EntryType::CanonicalizePermittedCNAMEs => 10,
            EntryType::CertificateFile => 11,
            EntryType::ChannelTimeout => 12,
            EntryType::CheckHostIP => 13,
            EntryType::Ciphers => 14,
            EntryType::ClearAllForwardings => 15,
            EntryType::Compression => 16,
            EntryType::ConnectTimeout => 17,
            EntryType::ConnectionAttempts => 18,
            EntryType::ControlMaster => 19,
            EntryType::ControlPath => 20,
            EntryType::ControlPersist => 21,
            EntryType::DynamicForward => 22,
            EntryType::EnableEscapeCommandline => 23,
            EntryType::EnableSSHKeysign => 24,
            EntryType::EscapeChar => 25,
            EntryType::ExitOnForwardFailure => 26,
            EntryType::FingerprintHash => 27,
            EntryType::ForkAfterAuthentication => 28,
            EntryType::ForwardAgent => 29,
            EntryType::ForwardX11 => 30,
            EntryType::ForwardX11Timeout => 31,
            EntryType::ForwardX11Trusted => 32,
            EntryType::GSSAPIAuthentication => 33,
            EntryType::GSSAPIDelegateCredentials => 34,
            EntryType::GatewayPorts => 35,
            EntryType::GlobalKnownHostsFile => 36,
            EntryType::HashKnownHosts => 37,
            EntryType::HostKeyAlgorithms => 38,
            EntryType::HostKeyAlias => 39,
            EntryType::HostbasedAcceptedAlgorithms => 40,
            EntryType::HostbasedAuthentication => 41,
            EntryType::Hostname => 42,
            EntryType::IPQoS => 43,
            EntryType::IdentitiesOnly => 44,
            EntryType::IdentityAgent => 45,
            EntryType::IdentityFile => 46,
            EntryType::IgnoreUnknown => 47,
            EntryType::Include => 48,
            EntryType::KbdInteractiveAuthentication => 49,
            EntryType::KbdInteractiveDevices => 50,
            EntryType::KexAlgorithms => 51,
            EntryType::KnownHostsCommand => 52,
            EntryType::LocalCommand => 53,
            EntryType::LocalForward => 54,
            EntryType::LogLevel => 55,
            EntryType::LogVerbose => 56,
            EntryType::MACs => 57,
            EntryType::Match => 58,
            EntryType::NoHostAuthenticationForLocalhost => 59,
            EntryType::NumberOfPasswordPrompts => 60,
            EntryType::ObscureKeystrokeTiming => 61,
            EntryType::PKCS11Provider => 62,
            EntryType::PasswordAuthentication => 63,
            EntryType::PermitLocalCommand => 64,
            EntryType::PermitRemoteOpen => 65,
            EntryType::Port => 66,
            EntryType::PreferredAuthentications => 67,
            EntryType::ProxyCommand => 68,
            EntryType::ProxyJump => 69,
            EntryType::ProxyUseFdpass => 70,
            EntryType::PubkeyAcceptedAlgorithms => 71,
            EntryType::PubkeyAuthentication => 72,
            EntryType::RekeyLimit => 73,
            EntryType::RemoteCommand => 74,
            EntryType::RemoteForward => 75,
            EntryType::RequestTTY => 76,
            EntryType::RequiredRSASize => 77,
            EntryType::RevokedHostKeys => 78,
            EntryType::SecurityKeyProvider => 79,
            EntryType::SendEnv => 80,
            EntryType::ServerAliveCountMax => 81,
            EntryType::ServerAliveInterval => 82,
            EntryType::SessionType => 83,
            EntryType::SetEnv => 84,
            EntryType::StdinNull => 85,
            EntryType::StreamLocalBindMask => 86,
            EntryType::StreamLocalBindUnlink => 87,
            EntryType::StrictHostKeyChecking => 88,
            EntryType::SyslogFacility => 89,
            EntryType::TCPKeepAlive => 90,
            EntryType::Tag => 91,
            EntryType::Tunnel => 92,
            EntryType::TunnelDevice => 93,
            EntryType::UpdateHostKeys => 94,
            EntryType::User => 95,
            EntryType::UserKnownHostsFile => 96,
            EntryType::VerifyHostKeyDNS => 97,
            EntryType::VisualHostKey => 98,
            EntryType::XAuthLocation => 99,
        }
    }

    /// The keyword with a given code, if the code is in range.
    pub open spec fn spec_from_code(c: u8) -> Option<EntryType> {
        if c == 0 {
            Some(EntryType::AddKeysToAgent)
        } else         if c == 1 {
            Some(EntryType::AddressFamily)
        } else         if c == 2 {
            Some(EntryType::BatchMode)
        } else         if c == 3 {
            Some(EntryType::BindAddress)
        } else         if c == 4 {
            Some(EntryType::BindInterface)
        } else         if c == 5 {
            Some(EntryType::CASignatureAlgorithms)
        } else         if c == 6 {
            Some(EntryType::CanonicalDomains)
        } else         if c == 7 {
            Some(EntryType::CanonicalizeFallbackLocal)
        } else         if c == 8 {
            Some(EntryType::CanonicalizeHostname)
        } else         if c == 9 {
            Some(EntryType::CanonicalizeMaxDots)
        } else         if c == 10 {
            Some(EntryType::CanonicalizePermittedCNAMEs)
        } else         if c == 11 {
            Some(EntryType::CertificateFile)
        } else         if c == 12 {
            Some(EntryType::ChannelTimeout)
        } else         if c == 13 {
            Some(EntryType::CheckHostIP)
        } else         if c == 14 {
            Some(EntryType::Ciphers)
        } else         if c == 15 {
            Some(EntryType::ClearAllForwardings)
        } else         if c == 16 {
            Some(EntryType::Compression)
        } else         if c == 17 {
            Some(EntryType::ConnectTimeout)
        } else         if c == 18 {
            Some(EntryType::ConnectionAttempts)
        } else         if c == 19 {
            Some(EntryType::ControlMaster)
        } else         if c == 20 {
            Some(EntryType::ControlPath)
        } else         if c == 21 {
            Some(EntryType::ControlPersist)
        } else         if c == 22 {
            Some(EntryType::DynamicForward)
        } else         if c == 23 {
            Some(EntryType::EnableEscapeCommandline)
        } else         if c == 24 {
            Some(EntryType::EnableSSHKeysign)
        } else         if c == 25 {
            Some(EntryType::EscapeChar)
        } else         if c == 26 {
            Some(EntryType::ExitOnForwardFailure)
        } else         if c == 27 {
            Some(EntryType::FingerprintHash)
        } else         if c == 28 {
            Some(EntryType::ForkAfterAuthentication)
        } else         if c == 29 {
            Some(EntryType::ForwardAgent)
        } else         if c == 30 {
            Some(EntryType::ForwardX11)
        } else         if c == 31 {
            Some(EntryType::ForwardX11Timeout)
        } else         if c == 32 {
            Some(EntryType::ForwardX11Trusted)
        } else         if c == 33 {
            Some(EntryType::GSSAPIAuthentication)
        } else         if c == 34 {
            Some(EntryType::GSSAPIDelegateCredentials)
        } else         if c == 35 {
            Some(EntryType::GatewayPorts)
        } else         if c == 36 {
            Some(EntryType::GlobalKnownHostsFile)
        } else         if c == 37 {
            Some(EntryType::HashKnownHosts)
        } else         if c == 38 {
            Some(EntryType::HostKeyAlgorithms)
        } else         if c == 39 {
            Some(EntryType::HostKeyAlias)
        } else         if c == 40 {
            Some(EntryType::HostbasedAcceptedAlgorithms)
        } else         if c == 41 {
            Some(EntryType::HostbasedAuthentication)
        } else         if c == 42 {
            Some(EntryType::Hostname)
        } else         if c == 43 {
            Some(EntryType::IPQoS)
        } else         if c == 44 {
            Some(EntryType::IdentitiesOnly)
        } else         if c == 45 {
            Some(EntryType::IdentityAgent)
        } else         if c == 46 {
            Some(EntryType::IdentityFile)
        } else         if c == 47 {
            Some(EntryType::IgnoreUnknown)
        } else         if c == 48 {
            Some(EntryType::Include)
        } else         if c == 49 {
            Some(EntryType::KbdInteractiveAuthentication)
        } else         if c == 50 {
            Some(EntryType::KbdInteractiveDevices)
        } else         if c == 51 {
            Some(EntryType::KexAlgorithms)
        } else         if c == 52 {
            Some(EntryType::KnownHostsCommand)
        } else         if c == 53 {
            Some(EntryType::LocalCommand)
        } else         if c == 54 {
            Some(EntryType::LocalForward)
        } else         if c == 55 {
            Some(EntryType::LogLevel)
        } else         if c == 56 {
            Some(EntryType::LogVerbose)
        } else         if c == 57 {
            Some(EntryType::MACs)
        } else         if c == 58 {
            Some(EntryType::Match)
        } else         if c == 59 {
            Some(EntryType::NoHostAuthenticationForLocalhost)
        } else         if c == 60 {
            Some(EntryType::NumberOfPasswordPrompts)
        } else         if c == 61 {
            Some(EntryType::ObscureKeystrokeTiming)
        } else         if c == 62 {
            Some(EntryType::PKCS11Provider)
        } else         if c == 63 {
            Some(EntryType::PasswordAuthentication)
        } else         if c == 64 {
            Some(EntryType::PermitLocalCommand)
        } else         if c == 65 {
            Some(EntryType::PermitRemoteOpen)
        } else         if c == 66 {
            Some(EntryType::Port)
        } else         if c == 67 {
            Some(EntryType::PreferredAuthentications)
        } else         if c == 68 {
            Some(EntryType::ProxyCommand)
        } else         if c == 69 {
            Some(EntryType::ProxyJump)
        } else         if c == 70 {
            Some(EntryType::ProxyUseFdpass)
        } else         if c == 71 {
            Some(EntryType::PubkeyAcceptedAlgorithms)
        } else         if c == 72 {
            Some(EntryType::PubkeyAuthentication)
        } else         if c == 73 {
            Some(EntryType::RekeyLimit)
        } else         if c == 74 {
            Some(EntryType::RemoteCommand)
        } else         if c == 75 {
            Some(EntryType::RemoteForward)
        } else         if c == 76 {
            Some(EntryType::RequestTTY)
        } else         if c == 77 {
            Some(EntryType::RequiredRSASize)
        } else         if c == 78 {
            Some(EntryType::RevokedHostKeys)
        } else         if c == 79 {
            Some(EntryType::SecurityKeyProvider)
        } else         if c == 80 {
            Some(EntryType::SendEnv)
        } else         if c == 81 {
            Some(EntryType::ServerAliveCountMax)
        } else         if c == 82 {
            Some(EntryType::ServerAliveInterval)
        } else         if c == 83 {
            Some(EntryType::SessionType)
        } else         if c == 84 {
            Some(EntryType::SetEnv)
        } else         if c == 85 {
            Some(EntryType::StdinNull)
        } else         if c == 86 {
            Some(EntryType::StreamLocalBindMask)
        } else         if c == 87 {
            Some(EntryType::StreamLocalBindUnlink)
        } else         if c == 88 {
            Some(EntryType::StrictHostKeyChecking)
        } else         if c == 89 {
            Some(EntryType::SyslogFacility)
        } else         if c == 90 {
            Some(EntryType::TCPKeepAlive)
        } else         if c == 91 {
            Some(EntryType::Tag)
        } else         if c == 92 {
            Some(EntryType::Tunnel)
        } else         if c == 93 {
            Some(EntryType::TunnelDevice)
        } else         if c == 94 {
            Some(EntryType::UpdateHostKeys)
        } else         if c == 95 {
            Some(EntryType::User)
        } else         if c == 96 {
            Some(EntryType::UserKnownHostsFile)
        } else         if c == 97 {
            Some(EntryType::VerifyHostKeyDNS)
        } else         if c == 98 {
            Some(EntryType::VisualHostKey)
        } else         if c == 99 {
            Some(EntryType::XAuthLocation)
        } else {
            None
        }
    }

    /// Executable form of `spec_code`.
    pub fn code(&self) -> (c: u8)
        ensures
            c == self.spec_code(),
            c < ENTRY_TYPE_COUNT,
    {
        match self {
            EntryType::AddKeysToAgent => 0,
            EntryType::AddressFamily => 1,
            EntryType::BatchMode => 2,
            EntryType::BindAddress => 3,
            EntryType::BindInterface => 4,
            EntryType::CASignatureAlgorithms => 5,
            EntryType::CanonicalDomains => 6,
            EntryType::CanonicalizeFallbackLocal => 7,
            EntryType::CanonicalizeHostname => 8,
            EntryType::CanonicalizeMaxDots => 9,
            EntryType::CanonicalizePermittedCNAMEs => 10,
            EntryType::CertificateFile => 11,
            EntryType::ChannelTimeout => 12,
            EntryType::CheckHostIP => 13,
            EntryType::Ciphers => 14,
            EntryType::ClearAllForwardings => 15,
            EntryType::Compression => 16,
            EntryType::ConnectTimeout => 17,
            EntryType::ConnectionAttempts => 18,
            EntryType::ControlMaster => 19,
            EntryType::ControlPath => 20,
            EntryType::ControlPersist => 21,
            EntryType::DynamicForward => 22,
            EntryType::EnableEscapeCommandline => 23,
            EntryType::EnableSSHKeysign => 24,
            EntryType::EscapeChar => 25,
            EntryType::ExitOnForwardFailure => 26,
            EntryType::FingerprintHash => 27,
            EntryType::ForkAfterAuthentication => 28,
            EntryType::ForwardAgent => 29,
            EntryType::ForwardX11 => 30,
            EntryType::ForwardX11Timeout => 31,
            EntryType::ForwardX11Trusted => 32,
            EntryType::GSSAPIAuthentication => 33,
            EntryType::GSSAPIDelegateCredentials => 34,
            EntryType::GatewayPorts => 35,
            EntryType::GlobalKnownHostsFile => 36,
            EntryType::HashKnownHosts => 37,
            EntryType::HostKeyAlgorithms => 38,
            EntryType::HostKeyAlias => 39,
            EntryType::HostbasedAcceptedAlgorithms => 40,
            EntryType::HostbasedAuthentication => 41,
            EntryType::Hostname => 42,
            EntryType::IPQoS => 43,
            EntryType::IdentitiesOnly => 44,
            EntryType::IdentityAgent => 45,
            EntryType::IdentityFile => 46,
            EntryType::IgnoreUnknown => 47,
            EntryType::Include => 48,
            EntryType::KbdInteractiveAuthentication => 49,
            EntryType::KbdInteractiveDevices => 50,
            EntryType::KexAlgorithms => 51,
            EntryType::KnownHostsCommand => 52,
            EntryType::LocalCommand => 53,
            EntryType::LocalForward => 54,
            EntryType::LogLevel => 55,
            EntryType::LogVerbose => 56,
            EntryType::MACs => 57,
            EntryType::Match => 58,
            EntryType::NoHostAuthenticationForLocalhost => 59,
            EntryType::NumberOfPasswordPrompts => 60,
            EntryType::ObscureKeystrokeTiming => 61,
            EntryType::PKCS11Provider => 62,
            EntryType::PasswordAuthentication => 63,
            EntryType::PermitLocalCommand => 64,
            EntryType::PermitRemoteOpen => 65,
            EntryType::Port => 66,
            EntryType::PreferredAuthentications => 67,
            EntryType::ProxyCommand => 68,
            EntryType::ProxyJump => 69,
            EntryType::ProxyUseFdpass => 70,
            EntryType::PubkeyAcceptedAlgorithms => 71,
            EntryType::PubkeyAuthentication => 72,
            EntryType::RekeyLimit => 73,
            EntryType::RemoteCommand => 74,
            EntryType::RemoteForward => 75,
            EntryType::RequestTTY => 76,
            EntryType::RequiredRSASize => 77,
            EntryType::RevokedHostKeys => 78,
            EntryType::SecurityKeyProvider => 79,
            EntryType::SendEnv => 80,
            EntryType::ServerAliveCountMax => 81,
            EntryType::ServerAliveInterval => 82,
            EntryType::SessionType => 83,
            EntryType::SetEnv => 84,
            EntryType::StdinNull => 85,
            EntryType::StreamLocalBindMask => 86,
            EntryType::StreamLocalBindUnlink => 87,
            EntryType::StrictHostKeyChecking => 88,
            EntryType::SyslogFacility => 89,
            EntryType::TCPKeepAlive => 90,
            EntryType::Tag => 91,
            EntryType::Tunnel => 92,
            EntryType::TunnelDevice => 93,
            EntryType::UpdateHostKeys => 94,
            EntryType::User => 95,
            EntryType::UserKnownHostsFile => 96,
            EntryType::VerifyHostKeyDNS => 97,
            EntryType::VisualHostKey => 98,
            EntryType::XAuthLocation => 99,
        }
    }

    /// Executable form of `spec_from_code`.
    pub fn from_code(c: u8) -> (r: Option<EntryType>)
        ensures
            r == EntryType::spec_from_code(c),
    {
        match c {
            0 => Some(EntryType::AddKeysToAgent),
            1 => Some(EntryType::AddressFamily),
            2 => Some(EntryType::BatchMode),
            3 => Some(EntryType::BindAddress),
            4 => Some(EntryType::BindInterface),
            5 => Some(EntryType::CASignatureAlgorithms),
            6 => Some(EntryType::CanonicalDomains),
            7 => Some(EntryType::CanonicalizeFallbackLocal),
            8 => Some(EntryType::CanonicalizeHostname),
            9 => Some(EntryType::CanonicalizeMaxDots),
            10 => Some(EntryType::CanonicalizePermittedCNAMEs),
            11 => Some(EntryType::CertificateFile),
            12 => Some(EntryType::ChannelTimeout),
            13 => Some(EntryType::CheckHostIP),
            14 => Some(EntryType::Ciphers),
            15 => Some(EntryType::ClearAllForwardings),
            16 => Some(EntryType::Compression),
            17 => Some(EntryType::ConnectTimeout),
            18 => Some(EntryType::ConnectionAttempts),
            19 => Some(EntryType::ControlMaster),
            20 => Some(EntryType::ControlPath),
            21 => Some(EntryType::ControlPersist),
            22 => Some(EntryType::DynamicForward),
            23 => Some(EntryType::EnableEscapeCommandline),
            24 => Some(EntryType::EnableSSHKeysign),
            25 => Some(EntryType::EscapeChar),
            26 => Some(EntryType::ExitOnForwardFailure),
            27 => Some(EntryType::FingerprintHash),
            28 => Some(EntryType::ForkAfterAuthentication),
            29 => Some(EntryType::ForwardAgent),
            30 => Some(EntryType::ForwardX11),
            31 => Some(EntryType::ForwardX11Timeout),
            32 => Some(EntryType::ForwardX11Trusted),
            33 => Some(EntryType::GSSAPIAuthentication),
            34 => Some(EntryType::GSSAPIDelegateCredentials),
            35 => Some(EntryType::GatewayPorts),
            36 => Some(EntryType::GlobalKnownHostsFile),
            37 => Some(EntryType::HashKnownHosts),
            38 => Some(EntryType::HostKeyAlgorithms),
            39 => Some(EntryType::HostKeyAlias),
            40 => Some(EntryType::HostbasedAcceptedAlgorithms),
            41 => Some(EntryType::HostbasedAuthentication),
            42 => Some(EntryType::Hostname),
            43 => Some(EntryType::IPQoS),
            44 => Some(EntryType::IdentitiesOnly),
            45 => Some(EntryType::IdentityAgent),
            46 => Some(EntryType::IdentityFile),
            47 => Some(EntryType::IgnoreUnknown),
            48 => Some(EntryType::Include),
            49 => Some(EntryType::KbdInteractiveAuthentication),
            50 => Some(EntryType::KbdInteractiveDevices),
            51 => Some(EntryType::KexAlgorithms),
            52 => Some(EntryType::KnownHostsCommand),
            53 => Some(EntryType::LocalCommand),
            54 => Some(EntryType::LocalForward),
            55 => Some(EntryType::LogLevel),
            56 => Some(EntryType::LogVerbose),
            57 => Some(EntryType::MACs),
            58 => Some(EntryType::Match),
            59 => Some(EntryType::NoHostAuthenticationForLocalhost),
            60 => Some(EntryType::NumberOfPasswordPrompts),
            61 => Some(EntryType::ObscureKeystrokeTiming),
            62 => Some(EntryType::PKCS11Provider),
            63 => Some(EntryType::PasswordAuthentication),
            64 => Some(EntryType::PermitLocalCommand),
            65 => Some(EntryType::PermitRemoteOpen),
            66 => Some(EntryType::Port),
            67 => Some(EntryType::PreferredAuthentications),
            68 => Some(EntryType::ProxyCommand),
            69 => Some(EntryType::ProxyJump),
            70 => Some(EntryType::ProxyUseFdpass),
            71 => Some(EntryType::PubkeyAcceptedAlgorithms),
            72 => Some(EntryType::PubkeyAuthentication),
            73 => Some(EntryType::RekeyLimit),
            74 => Some(EntryType::RemoteCommand),
            75 => Some(EntryType::RemoteForward),
            76 => Some(EntryType::RequestTTY),
            77 => Some(EntryType::RequiredRSASize),
            78 => Some(EntryType::RevokedHostKeys),
            79 => Some(EntryType::SecurityKeyProvider),
            80 => Some(EntryType::SendEnv),
            81 => Some(EntryType::ServerAliveCountMax),
            82 => Some(EntryType::ServerAliveInterval),
            83 => Some(EntryType::SessionType),
            84 => Some(EntryType::SetEnv),
            85 => Some(EntryType::StdinNull),
            86 => Some(EntryType::StreamLocalBindMask),
            87 => Some(EntryType::StreamLocalBindUnlink),
            88 => Some(EntryType::StrictHostKeyChecking),
            89 => Some(EntryType::SyslogFacility),
            90 => Some(EntryType::TCPKeepAlive),
            91 => Some(EntryType::Tag),
            92 => Some(EntryType::Tunnel),
            93 => Some(EntryType::TunnelDevice),
            94 => Some(EntryType::UpdateHostKeys),
            95 => Some(EntryType::User),
            96 => Some(EntryType::UserKnownHostsFile),
            97 => Some(EntryType::VerifyHostKeyDNS),
            98 => Some(EntryType::VisualHostKey),
            99 => Some(EntryType::XAuthLocation),
            _ => None,
        }
    }

    /// The keyword as it is written in a configuration file.
    pub open spec fn keyword_name(self) -> Seq<char> {
        match self {
            EntryType::AddKeysToAgent => "AddKeysToAgent"@,
            EntryType::AddressFamily => "AddressFamily"@,
            EntryType::BatchMode => "BatchMode"@,
            EntryType::BindAddress => "BindAddress"@,
            EntryType::BindInterface => "BindInterface"@,
            EntryType::CASignatureAlgorithms => "CASignatureAlgorithms"@,
            EntryType::CanonicalDomains => "CanonicalDomains"@,
            EntryType::CanonicalizeFallbackLocal => "CanonicalizeFallbackLocal"@,
            EntryType::CanonicalizeHostname => "CanonicalizeHostname"@,
            EntryType::CanonicalizeMaxDots => "CanonicalizeMaxDots"@,
            EntryType::CanonicalizePermittedCNAMEs => "CanonicalizePermittedCNAMEs"@,
            EntryType::CertificateFile => "CertificateFile"@,
            EntryType::ChannelTimeout => "ChannelTimeout"@,
            EntryType::CheckHostIP => "CheckHostIP"@,
            EntryType::Ciphers => "Ciphers"@,
            EntryType::ClearAllForwardings => "ClearAllForwardings"@,
            EntryType::Compression => "Compression"@,
            EntryType::ConnectTimeout => "ConnectTimeout"@,
            EntryType::ConnectionAttempts => "ConnectionAttempts"@,
            EntryType::ControlMaster => "ControlMaster"@,
            EntryType::ControlPath => "ControlPath"@,
            EntryType::ControlPersist => "ControlPersist"@,
            EntryType::DynamicForward => "DynamicForward"@,
            EntryType::EnableEscapeCommandline => "EnableEscapeCommandline"@,
            EntryType::EnableSSHKeysign => "EnableSSHKeysign"@,
            EntryType::EscapeChar => "EscapeChar"@,
            EntryType::ExitOnForwardFailure => "ExitOnForwardFailure"@,
            EntryType::FingerprintHash => "FingerprintHash"@,
            EntryType::ForkAfterAuthentication => "ForkAfterAuthentication"@,
            EntryType::ForwardAgent => "ForwardAgent"@,
            EntryType::ForwardX11 => "ForwardX11"@,
            EntryType::ForwardX11Timeout => "ForwardX11Timeout"@,
            EntryType::ForwardX11Trusted => "ForwardX11Trusted"@,
            EntryType::GSSAPIAuthentication => "GSSAPIAuthentication"@,
            EntryType::GSSAPIDelegateCredentials => "GSSAPIDelegateCredentials"@,
            EntryType::GatewayPorts => "GatewayPorts"@,
            EntryType::GlobalKnownHostsFile => "GlobalKnownHostsFile"@,
            EntryType::HashKnownHosts => "HashKnownHosts"@,
            EntryType::HostKeyAlgorithms => "HostKeyAlgorithms"@,
            EntryType::HostKeyAlias => "HostKeyAlias"@,
            EntryType::HostbasedAcceptedAlgorithms => "HostbasedAcceptedAlgorithms"@,
            EntryType::HostbasedAuthentication => "HostbasedAuthentication"@,
            EntryType::Hostname => "Hostname"@,
            EntryType::IPQoS => "IPQoS"@,
            EntryType::IdentitiesOnly => "IdentitiesOnly"@,
            EntryType::IdentityAgent => "IdentityAgent"@,
            EntryType::IdentityFile => "IdentityFile"@,
            EntryType::IgnoreUnknown => "IgnoreUnknown"@,
            EntryType::Include => "Include"@,
            EntryType::KbdInteractiveAuthentication => "KbdInteractiveAuthentication"@,
            EntryType::KbdInteractiveDevices => "KbdInteractiveDevices"@,
            EntryType::KexAlgorithms => "KexAlgorithms"@,
            EntryType::KnownHostsCommand => "KnownHostsCommand"@,
            EntryType::LocalCommand => "LocalCommand"@,
            EntryType::LocalForward => "LocalForward"@,
            EntryType::LogLevel => "LogLevel"@,
            EntryType::LogVerbose => "LogVerbose"@,
            EntryType::MACs => "MACs"@,
            EntryType::Match => "Match"@,
            EntryType::NoHostAuthenticationForLocalhost => "NoHostAuthenticationForLocalhost"@,
            EntryType::NumberOfPasswordPrompts => "NumberOfPasswordPrompts"@,
            EntryType::ObscureKeystrokeTiming => "ObscureKeystrokeTiming"@,
            EntryType::PKCS11Provider => "PKCS11Provider"@,
            EntryType::PasswordAuthentication => "PasswordAuthentication"@,
            EntryType::PermitLocalCommand => "PermitLocalCommand"@,
            EntryType::PermitRemoteOpen => "PermitRemoteOpen"@,
            EntryType::Port => "Port"@,
            EntryType::PreferredAuthentications => "PreferredAuthentications"@,
            EntryType::ProxyCommand => "ProxyCommand"@,
            EntryType::ProxyJump => "ProxyJump"@,
            EntryType::ProxyUseFdpass => "ProxyUseFdpass"@,
            EntryType::PubkeyAcceptedAlgorithms => "PubkeyAcceptedAlgorithms"@,
            EntryType::PubkeyAuthentication => "PubkeyAuthentication"@,
            EntryType::RekeyLimit => "RekeyLimit"@,
            EntryType::RemoteCommand => "RemoteCommand"@,
            EntryType::RemoteForward => "RemoteForward"@,
            EntryType::RequestTTY => "RequestTTY"@,
            EntryType::RequiredRSASize => "RequiredRSASize"@,
            EntryType::RevokedHostKeys => "RevokedHostKeys"@,
            EntryType::SecurityKeyProvider => "SecurityKeyProvider"@,
            EntryType::SendEnv => "SendEnv"@,
            EntryType::ServerAliveCountMax => "ServerAliveCountMax"@,
            EntryType::ServerAliveInterval => "ServerAliveInterval"@,
            EntryType::SessionType => "SessionType"@,
            EntryType::SetEnv => "SetEnv"@,
            EntryType::StdinNull => "StdinNull"@,
            EntryType::StreamLocalBindMask => "StreamLocalBindMask"@,
            EntryType::StreamLocalBindUnlink => "StreamLocalBindUnlink"@,
            EntryType::StrictHostKeyChecking => "StrictHostKeyChecking"@,
            EntryType::SyslogFacility => "SyslogFacility"@,
            EntryType::TCPKeepAlive => "TCPKeepAlive"@,
            EntryType::Tag => "Tag"@,
            EntryType::Tunnel => "Tunnel"@,
            EntryType::TunnelDevice => "TunnelDevice"@,
            EntryType::UpdateHostKeys => "UpdateHostKeys"@,
            EntryType::User => "User"@,
            EntryType::UserKnownHostsFile => "UserKnownHostsFile"@,
            EntryType::VerifyHostKeyDNS => "VerifyHostKeyDNS"@,
            EntryType::VisualHostKey => "VisualHostKey"@,
            EntryType::XAuthLocation => "XAuthLocation"@,
        }
    }

    /// Keywords that may occur several times in one block and accumulate
    /// their values instead of replacing them.
    pub open spec fn spec_is_multi_valued(self) -> bool {
        match self {
            EntryType::IdentityFile => true,
            EntryType::LocalForward => true,
            EntryType::RemoteForward => true,
            EntryType::SendEnv => true,
            EntryType::SetEnv => true,
            EntryType::CertificateFile => true,
            EntryType::CanonicalDomains => true,
            EntryType::GlobalKnownHostsFile => true,
            EntryType::HostKeyAlias => true,
            EntryType::Match => true,
            _ => false,
        }
    }

    /// Executable form of `spec_is_multi_valued`.
    pub fn is_multi_valued(&self) -> (r: bool)
        ensures
            r == self.spec_is_multi_valued(),
    {
        match self {
            EntryType::IdentityFile => true,
            EntryType::LocalForward => true,
            EntryType::RemoteForward => true,
            EntryType::SendEnv => true,
            EntryType::SetEnv => true,
            EntryType::CertificateFile => true,
            EntryType::CanonicalDomains => true,
            EntryType::GlobalKnownHostsFile => true,
            EntryType::HostKeyAlias => true,
            EntryType::Match => true,
            _ => false,
        }
    }
}

/// Every keyword is recovered from its code.
pub proof fn lemma_code_roundtrip(e: EntryType)
    ensures
        EntryType::spec_from_code(e.spec_code()) == Some(e),
        e.spec_code() < ENTRY_TYPE_COUNT,
{
}

/// Codes in range come from a keyword with that code; codes out of range
/// name no keyword.
pub proof fn lemma_from_code_inverse(c: u8)
    ensures
        c < ENTRY_TYPE_COUNT <==> EntryType::spec_from_code(c) is Some,
        EntryType::spec_from_code(c) matches Some(e) ==> e.spec_code() == c,
{
}

/// Distinct keywords have distinct codes.
pub proof fn lemma_code_injective(a: EntryType, b: EntryType)
    ensures
        a.spec_code() == b.spec_code() ==> a == b,
{
    lemma_code_roundtrip(a);
    lemma_code_roundtrip(b);
}

} // verus!
