//! Flat host records, as the host list shows them and the config writer
//! emits them.

use vstd::prelude::*;
use vstd::string::StringExecFns;
use crate::config_host::{ConfigHost, HostModel, opt_view};
use crate::entry_type::EntryType;
use crate::text::{blank, is_blank, join_strings, same_text, seq_join, strings_view};
use crate::host_vec::{
    HostVecExt, hostnames_derivable, merged_hosts, models, named_hosts, patterns_applied,
    patterns_resolvable, lemma_rules_have_wildcard, lemma_wildcard_has_rules,
};
use crate::pattern::{has_wildcard, pattern_rules};

verus! {

/// One host of the configuration with every option it sets.
#[derive(Debug, PartialEq, Eq)]
pub struct Host {
    pub add_keys_to_agent: Option<String>,
    pub address_family: Option<String>,
    pub aliases: String,
    pub batch_mode: Option<String>,
    pub bind_address: Option<String>,
    pub bind_interface: Option<String>,
    pub ca_signature_algorithms: Option<String>,
    pub canonical_domains: Option<String>,
    pub canonicalize_fallback_local: Option<String>,
    pub canonicalize_hostname: Option<String>,
    pub canonicalize_max_dots: Option<String>,
    pub canonicalize_permitted_cnames: Option<String>,
    pub certificate_file: Option<String>,
    pub channel_timeout: Option<String>,
    pub check_host_ip: Option<String>,
    pub ciphers: Option<String>,
    pub clear_all_forwardings: Option<String>,
    pub compression: Option<String>,
    pub connect_timeout: Option<String>,
    pub connection_attempts: Option<String>,
    pub control_master: Option<String>,
    pub control_path: Option<String>,
    pub control_persist: Option<String>,
    pub dynamic_forward: Option<String>,
    pub enable_escape_commandline: Option<String>,
    pub enable_ssh_keysign: Option<String>,
    pub escape_char: Option<String>,
    pub exit_on_forward_failure: Option<String>,
    pub fingerprint_hash: Option<String>,
    pub fork_after_authentication: Option<String>,
    pub forward_agent: Option<String>,
    pub forward_x11: Option<String>,
    pub forward_x11_timeout: Option<String>,
    pub forward_x11_trusted: Option<String>,
    pub gateway_ports: Option<String>,
    pub global_known_hosts_file: Option<String>,
    pub gssapi_authentication: Option<String>,
    pub gssapi_delegate_credentials: Option<String>,
    pub hash_known_hosts: Option<String>,
    pub host_key_algorithms: Option<String>,
    pub host_key_alias: Option<String>,
    pub hostbased_accepted_algorithms: Option<String>,
    pub hostbased_authentication: Option<String>,
    pub hostname: String,
    pub identities_only: Option<String>,
    pub identity_agent: Option<String>,
    pub identity_file: Option<String>,
    pub ignore_unknown: Option<String>,
    /// The `Include` option; its field name is "include".
    pub include_files: Option<String>,
    pub ipqos: Option<String>,
    pub kbd_interactive_authentication: Option<String>,
    pub kbd_interactive_devices: Option<String>,
    pub kex_algorithms: Option<String>,
    pub known_hosts_command: Option<String>,
    pub local_command: Option<String>,
    pub local_forward: Option<String>,
    pub log_level: Option<String>,
    pub log_verbose: Option<String>,
    pub macs: Option<String>,
    pub match_field: Option<String>,
    pub name: String,
    pub no_host_authentication_for_localhost: Option<String>,
    pub number_of_password_prompts: Option<String>,
    pub obscure_keystroke_timing: Option<String>,
    pub password_authentication: Option<String>,
    pub permit_local_command: Option<String>,
    pub permit_remote_open: Option<String>,
    pub pkcs11_provider: Option<String>,
    pub port: Option<String>,
    pub preferred_authentications: Option<String>,
    pub proxy_command: Option<String>,
    pub proxy_jump: Option<String>,
    pub proxy_use_fdpass: Option<String>,
    pub pubkey_accepted_algorithms: Option<String>,
    pub pubkey_authentication: Option<String>,
    pub rekey_limit: Option<String>,
    pub remote_command: Option<String>,
    pub remote_forward: Option<String>,
    pub request_tty: Option<String>,
    pub required_rsa_size: Option<String>,
    pub revoked_host_keys: Option<String>,
    pub security_key_provider: Option<String>,
    pub send_env: Option<String>,
    pub server_alive_count_max: Option<String>,
    pub server_alive_interval: Option<String>,
    pub session_type: Option<String>,
    pub set_env: Option<String>,
    pub stdin_null: Option<String>,
    pub stream_local_bind_mask: Option<String>,
    pub stream_local_bind_unlink: Option<String>,
    pub strict_host_key_checking: Option<String>,
    pub syslog_facility: Option<String>,
    pub tag: Option<String>,
    pub tcp_keep_alive: Option<String>,
    pub tunnel: Option<String>,
    pub tunnel_device: Option<String>,
    pub update_host_keys: Option<String>,
    pub user: Option<String>,
    pub user_known_hosts_file: Option<String>,
    pub verify_host_key_dns: Option<String>,
    pub visual_host_key: Option<String>,
    pub x_auth_location: Option<String>,
}

/// A copy of an optional string.
fn copy_opt(o: &Option<String>) -> (r: Option<String>)
    ensures
        r == *o,
{
    match o {
        Some(s) => Some(s.clone()),
        None => None,
    }
}

impl Clone for Host {
    /// A copy of the host, field for field.
    fn clone(&self) -> (r: Host)
        ensures
            r == *self,
    {
        Host {
            add_keys_to_agent: copy_opt(&self.add_keys_to_agent),
            address_family: copy_opt(&self.address_family),
            aliases: self.aliases.clone(),
            batch_mode: copy_opt(&self.batch_mode),
            bind_address: copy_opt(&self.bind_address),
            bind_interface: copy_opt(&self.bind_interface),
            ca_signature_algorithms: copy_opt(&self.ca_signature_algorithms),
            canonical_domains: copy_opt(&self.canonical_domains),
            canonicalize_fallback_local: copy_opt(&self.canonicalize_fallback_local),
            canonicalize_hostname: copy_opt(&self.canonicalize_hostname),
            canonicalize_max_dots: copy_opt(&self.canonicalize_max_dots),
            canonicalize_permitted_cnames: copy_opt(&self.canonicalize_permitted_cnames),
            certificate_file: copy_opt(&self.certificate_file),
            channel_timeout: copy_opt(&self.channel_timeout),
            check_host_ip: copy_opt(&self.check_host_ip),
            ciphers: copy_opt(&self.ciphers),
            clear_all_forwardings: copy_opt(&self.clear_all_forwardings),
            compression: copy_opt(&self.compression),
            connect_timeout: copy_opt(&self.connect_timeout),
            connection_attempts: copy_opt(&self.connection_attempts),
            control_master: copy_opt(&self.control_master),
            control_path: copy_opt(&self.control_path),
            control_persist: copy_opt(&self.control_persist),
            dynamic_forward: copy_opt(&self.dynamic_forward),
            enable_escape_commandline: copy_opt(&self.enable_escape_commandline),
            enable_ssh_keysign: copy_opt(&self.enable_ssh_keysign),
            escape_char: copy_opt(&self.escape_char),
            exit_on_forward_failure: copy_opt(&self.exit_on_forward_failure),
            fingerprint_hash: copy_opt(&self.fingerprint_hash),
            fork_after_authentication: copy_opt(&self.fork_after_authentication),
            forward_agent: copy_opt(&self.forward_agent),
            forward_x11: copy_opt(&self.forward_x11),
            forward_x11_timeout: copy_opt(&self.forward_x11_timeout),
            forward_x11_trusted: copy_opt(&self.forward_x11_trusted),
            gateway_ports: copy_opt(&self.gateway_ports),
            global_known_hosts_file: copy_opt(&self.global_known_hosts_file),
            gssapi_authentication: copy_opt(&self.gssapi_authentication),
            gssapi_delegate_credentials: copy_opt(&self.gssapi_delegate_credentials),
            hash_known_hosts: copy_opt(&self.hash_known_hosts),
            host_key_algorithms: copy_opt(&self.host_key_algorithms),
            host_key_alias: copy_opt(&self.host_key_alias),
            hostbased_accepted_algorithms: copy_opt(&self.hostbased_accepted_algorithms),
            hostbased_authentication: copy_opt(&self.hostbased_authentication),
            hostname: self.hostname.clone(),
            identities_only: copy_opt(&self.identities_only),
            identity_agent: copy_opt(&self.identity_agent),
            identity_file: copy_opt(&self.identity_file),
            ignore_unknown: copy_opt(&self.ignore_unknown),
            include_files: copy_opt(&self.include_files),
            ipqos: copy_opt(&self.ipqos),
            kbd_interactive_authentication: copy_opt(&self.kbd_interactive_authentication),
            kbd_interactive_devices: copy_opt(&self.kbd_interactive_devices),
            kex_algorithms: copy_opt(&self.kex_algorithms),
            known_hosts_command: copy_opt(&self.known_hosts_command),
            local_command: copy_opt(&self.local_command),
            local_forward: copy_opt(&self.local_forward),
            log_level: copy_opt(&self.log_level),
            log_verbose: copy_opt(&self.log_verbose),
            macs: copy_opt(&self.macs),
            match_field: copy_opt(&self.match_field),
            name: self.name.clone(),
            no_host_authentication_for_localhost: copy_opt(&self.no_host_authentication_for_localhost),
            number_of_password_prompts: copy_opt(&self.number_of_password_prompts),
            obscure_keystroke_timing: copy_opt(&self.obscure_keystroke_timing),
            password_authentication: copy_opt(&self.password_authentication),
            permit_local_command: copy_opt(&self.permit_local_command),
            permit_remote_open: copy_opt(&self.permit_remote_open),
            pkcs11_provider: copy_opt(&self.pkcs11_provider),
            port: copy_opt(&self.port),
            preferred_authentications: copy_opt(&self.preferred_authentications),
            proxy_command: copy_opt(&self.proxy_command),
            proxy_jump: copy_opt(&self.proxy_jump),
            proxy_use_fdpass: copy_opt(&self.proxy_use_fdpass),
            pubkey_accepted_algorithms: copy_opt(&self.pubkey_accepted_algorithms),
            pubkey_authentication: copy_opt(&self.pubkey_authentication),
            rekey_limit: copy_opt(&self.rekey_limit),
            remote_command: copy_opt(&self.remote_command),
            remote_forward: copy_opt(&self.remote_forward),
            request_tty: copy_opt(&self.request_tty),
            required_rsa_size: copy_opt(&self.required_rsa_size),
            revoked_host_keys: copy_opt(&self.revoked_host_keys),
            security_key_provider: copy_opt(&self.security_key_provider),
            send_env: copy_opt(&self.send_env),
            server_alive_count_max: copy_opt(&self.server_alive_count_max),
            server_alive_interval: copy_opt(&self.server_alive_interval),
            session_type: copy_opt(&self.session_type),
            set_env: copy_opt(&self.set_env),
            stdin_null: copy_opt(&self.stdin_null),
            stream_local_bind_mask: copy_opt(&self.stream_local_bind_mask),
            stream_local_bind_unlink: copy_opt(&self.stream_local_bind_unlink),
            strict_host_key_checking: copy_opt(&self.strict_host_key_checking),
            syslog_facility: copy_opt(&self.syslog_facility),
            tag: copy_opt(&self.tag),
            tcp_keep_alive: copy_opt(&self.tcp_keep_alive),
            tunnel: copy_opt(&self.tunnel),
            tunnel_device: copy_opt(&self.tunnel_device),
            update_host_keys: copy_opt(&self.update_host_keys),
            user: copy_opt(&self.user),
            user_known_hosts_file: copy_opt(&self.user_known_hosts_file),
            verify_host_key_dns: copy_opt(&self.verify_host_key_dns),
            visual_host_key: copy_opt(&self.visual_host_key),
            x_auth_location: copy_opt(&self.x_auth_location),
        }
    }
}

impl Default for Host {
    /// A host with empty name, aliases and host name and no option set.
    fn default() -> (r: Host)
        ensures
            r.is_default(),
    {
        Host {
            add_keys_to_agent: None,
            address_family: None,
            aliases: String::new(),
            batch_mode: None,
            bind_address: None,
            bind_interface: None,
            ca_signature_algorithms: None,
            canonical_domains: None,
            canonicalize_fallback_local: None,
            canonicalize_hostname: None,
            canonicalize_max_dots: None,
            canonicalize_permitted_cnames: None,
            certificate_file: None,
            channel_timeout: None,
            check_host_ip: None,
            ciphers: None,
            clear_all_forwardings: None,
            compression: None,
            connect_timeout: None,
            connection_attempts: None,
            control_master: None,
            control_path: None,
            control_persist: None,
            dynamic_forward: None,
            enable_escape_commandline: None,
            enable_ssh_keysign: None,
            escape_char: None,
            exit_on_forward_failure: None,
            fingerprint_hash: None,
            fork_after_authentication: None,
            forward_agent: None,
            forward_x11: None,
            forward_x11_timeout: None,
            forward_x11_trusted: None,
            gateway_ports: None,
            global_known_hosts_file: None,
            gssapi_authentication: None,
            gssapi_delegate_credentials: None,
            hash_known_hosts: None,
            host_key_algorithms: None,
            host_key_alias: None,
            hostbased_accepted_algorithms: None,
            hostbased_authentication: None,
            hostname: String::new(),
            identities_only: None,
            identity_agent: None,
            identity_file: None,
            ignore_unknown: None,
            include_files: None,
            ipqos: None,
            kbd_interactive_authentication: None,
            kbd_interactive_devices: None,
            kex_algorithms: None,
            known_hosts_command: None,
            local_command: None,
            local_forward: None,
            log_level: None,
            log_verbose: None,
            macs: None,
            match_field: None,
            name: String::new(),
            no_host_authentication_for_localhost: None,
            number_of_password_prompts: None,
            obscure_keystroke_timing: None,
            password_authentication: None,
            permit_local_command: None,
            permit_remote_open: None,
            pkcs11_provider: None,
            port: None,
            preferred_authentications: None,
            proxy_command: None,
            proxy_jump: None,
            proxy_use_fdpass: None,
            pubkey_accepted_algorithms: None,
            pubkey_authentication: None,
            rekey_limit: None,
            remote_command: None,
            remote_forward: None,
            request_tty: None,
            required_rsa_size: None,
            revoked_host_keys: None,
            security_key_provider: None,
            send_env: None,
            server_alive_count_max: None,
            server_alive_interval: None,
            session_type: None,
            set_env: None,
            stdin_null: None,
            stream_local_bind_mask: None,
            stream_local_bind_unlink: None,
            strict_host_key_checking: None,
            syslog_facility: None,
            tag: None,
            tcp_keep_alive: None,
            tunnel: None,
            tunnel_device: None,
            update_host_keys: None,
            user: None,
            user_known_hosts_file: None,
            verify_host_key_dns: None,
            visual_host_key: None,
            x_auth_location: None,
        }
    }
}

impl Host {
    /// Every string field is empty and no option is set.
    pub open spec fn is_default(self) -> bool {
        &&& self.add_keys_to_agent is None
        &&& self.address_family is None
        &&& self.aliases@ == Seq::<char>::empty()
        &&& self.batch_mode is None
        &&& self.bind_address is None
        &&& self.bind_interface is None
        &&& self.ca_signature_algorithms is None
        &&& self.canonical_domains is None
        &&& self.canonicalize_fallback_local is None
        &&& self.canonicalize_hostname is None
        &&& self.canonicalize_max_dots is None
        &&& self.canonicalize_permitted_cnames is None
        &&& self.certificate_file is None
        &&& self.channel_timeout is None
        &&& self.check_host_ip is None
        &&& self.ciphers is None
        &&& self.clear_all_forwardings is None
        &&& self.compression is None
        &&& self.connect_timeout is None
        &&& self.connection_attempts is None
        &&& self.control_master is None
        &&& self.control_path is None
        &&& self.control_persist is None
        &&& self.dynamic_forward is None
        &&& self.enable_escape_commandline is None
        &&& self.enable_ssh_keysign is None
        &&& self.escape_char is None
        &&& self.exit_on_forward_failure is None
        &&& self.fingerprint_hash is None
        &&& self.fork_after_authentication is None
        &&& self.forward_agent is None
        &&& self.forward_x11 is None
        &&& self.forward_x11_timeout is None
        &&& self.forward_x11_trusted is None
        &&& self.gateway_ports is None
        &&& self.global_known_hosts_file is None
        &&& self.gssapi_authentication is None
        &&& self.gssapi_delegate_credentials is None
        &&& self.hash_known_hosts is None
        &&& self.host_key_algorithms is None
        &&& self.host_key_alias is None
        &&& self.hostbased_accepted_algorithms is None
        &&& self.hostbased_authentication is None
        &&& self.hostname@ == Seq::<char>::empty()
        &&& self.identities_only is None
        &&& self.identity_agent is None
        &&& self.identity_file is None
        &&& self.ignore_unknown is None
        &&& self.include_files is None
        &&& self.ipqos is None
        &&& self.kbd_interactive_authentication is None
        &&& self.kbd_interactive_devices is None
        &&& self.kex_algorithms is None
        &&& self.known_hosts_command is None
        &&& self.local_command is None
        &&& self.local_forward is None
        &&& self.log_level is None
        &&& self.log_verbose is None
        &&& self.macs is None
        &&& self.match_field is None
        &&& self.name@ == Seq::<char>::empty()
        &&& self.no_host_authentication_for_localhost is None
        &&& self.number_of_password_prompts is None
        &&& self.obscure_keystroke_timing is None
        &&& self.password_authentication is None
        &&& self.permit_local_command is None
        &&& self.permit_remote_open is None
        &&& self.pkcs11_provider is None
        &&& self.port is None
        &&& self.preferred_authentications is None
        &&& self.proxy_command is None
        &&& self.proxy_jump is None
        &&& self.proxy_use_fdpass is None
        &&& self.pubkey_accepted_algorithms is None
        &&& self.pubkey_authentication is None
        &&& self.rekey_limit is None
        &&& self.remote_command is None
        &&& self.remote_forward is None
        &&& self.request_tty is None
        &&& self.required_rsa_size is None
        &&& self.revoked_host_keys is None
        &&& self.security_key_provider is None
        &&& self.send_env is None
        &&& self.server_alive_count_max is None
        &&& self.server_alive_interval is None
        &&& self.session_type is None
        &&& self.set_env is None
        &&& self.stdin_null is None
        &&& self.stream_local_bind_mask is None
        &&& self.stream_local_bind_unlink is None
        &&& self.strict_host_key_checking is None
        &&& self.syslog_facility is None
        &&& self.tag is None
        &&& self.tcp_keep_alive is None
        &&& self.tunnel is None
        &&& self.tunnel_device is None
        &&& self.update_host_keys is None
        &&& self.user is None
        &&& self.user_known_hosts_file is None
        &&& self.verify_host_key_dns is None
        &&& self.visual_host_key is None
        &&& self.x_auth_location is None
    }

    /// The value of field `i`, in field order; `name`, `aliases` and
    /// `hostname` always have one.
    pub open spec fn field_value(self, i: int) -> Option<Seq<char>> {
        if i == 0 {
            opt_view(self.add_keys_to_agent)
        } else         if i == 1 {
            opt_view(self.address_family)
        } else         if i == 2 {
            Some(self.aliases@)
        } else         if i == 3 {
            opt_view(self.batch_mode)
        } else         if i == 4 {
            opt_view(self.bind_address)
        } else         if i == 5 {
            opt_view(self.bind_interface)
        } else         if i == 6 {
            opt_view(self.ca_signature_algorithms)
        } else         if i == 7 {
            opt_view(self.canonical_domains)
        } else         if i == 8 {
            opt_view(self.canonicalize_fallback_local)
        } else         if i == 9 {
            opt_view(self.canonicalize_hostname)
        } else         if i == 10 {
            opt_view(self.canonicalize_max_dots)
        } else         if i == 11 {
            opt_view(self.canonicalize_permitted_cnames)
        } else         if i == 12 {
            opt_view(self.certificate_file)
        } else         if i == 13 {
            opt_view(self.channel_timeout)
        } else         if i == 14 {
            opt_view(self.check_host_ip)
        } else         if i == 15 {
            opt_view(self.ciphers)
        } else         if i == 16 {
            opt_view(self.clear_all_forwardings)
        } else         if i == 17 {
            opt_view(self.compression)
        } else         if i == 18 {
            opt_view(self.connect_timeout)
        } else         if i == 19 {
            opt_view(self.connection_attempts)
        } else         if i == 20 {
            opt_view(self.control_master)
        } else         if i == 21 {
            opt_view(self.control_path)
        } else         if i == 22 {
            opt_view(self.control_persist)
        } else         if i == 23 {
            opt_view(self.dynamic_forward)
        } else         if i == 24 {
            opt_view(self.enable_escape_commandline)
        } else         if i == 25 {
            opt_view(self.enable_ssh_keysign)
        } else         if i == 26 {
            opt_view(self.escape_char)
        } else         if i == 27 {
            opt_view(self.exit_on_forward_failure)
        } else         if i == 28 {
            opt_view(self.fingerprint_hash)
        } else         if i == 29 {
            opt_view(self.fork_after_authentication)
        } else         if i == 30 {
            opt_view(self.forward_agent)
        } else         if i == 31 {
            opt_view(self.forward_x11)
        } else         if i == 32 {
            opt_view(self.forward_x11_timeout)
        } else         if i == 33 {
            opt_view(self.forward_x11_trusted)
        } else         if i == 34 {
            opt_view(self.gateway_ports)
        } else         if i == 35 {
            opt_view(self.global_known_hosts_file)
        } else         if i == 36 {
            opt_view(self.gssapi_authentication)
        } else         if i == 37 {
            opt_view(self.gssapi_delegate_credentials)
        } else         if i == 38 {
            opt_view(self.hash_known_hosts)
        } else         if i == 39 {
            opt_view(self.host_key_algorithms)
        } else         if i == 40 {
            opt_view(self.host_key_alias)
        } else         if i == 41 {
            opt_view(self.hostbased_accepted_algorithms)
        } else         if i == 42 {
            opt_view(self.hostbased_authentication)
        } else         if i == 43 {
            Some(self.hostname@)
        } else         if i == 44 {
            opt_view(self.identities_only)
        } else         if i == 45 {
            opt_view(self.identity_agent)
        } else         if i == 46 {
            opt_view(self.identity_file)
        } else         if i == 47 {
            opt_view(self.ignore_unknown)
        } else         if i == 48 {
            opt_view(self.include_files)
        } else         if i == 49 {
            opt_view(self.ipqos)
        } else         if i == 50 {
            opt_view(self.kbd_interactive_authentication)
        } else         if i == 51 {
            opt_view(self.kbd_interactive_devices)
        } else         if i == 52 {
            opt_view(self.kex_algorithms)
        } else         if i == 53 {
            opt_view(self.known_hosts_command)
        } else         if i == 54 {
            opt_view(self.local_command)
        } else         if i == 55 {
            opt_view(self.local_forward)
        } else         if i == 56 {
            opt_view(self.log_level)
        } else         if i == 57 {
            opt_view(self.log_verbose)
        } else         if i == 58 {
            opt_view(self.macs)
        } else         if i == 59 {
            opt_view(self.match_field)
        } else         if i == 60 {
            Some(self.name@)
        } else         if i == 61 {
            opt_view(self.no_host_authentication_for_localhost)
        } else         if i == 62 {
            opt_view(self.number_of_password_prompts)
        } else         if i == 63 {
            opt_view(self.obscure_keystroke_timing)
        } else         if i == 64 {
            opt_view(self.password_authentication)
        } else         if i == 65 {
            opt_view(self.permit_local_command)
        } else         if i == 66 {
            opt_view(self.permit_remote_open)
        } else         if i == 67 {
            opt_view(self.pkcs11_provider)
        } else         if i == 68 {
            opt_view(self.port)
        } else         if i == 69 {
            opt_view(self.preferred_authentications)
        } else         if i == 70 {
            opt_view(self.proxy_command)
        } else         if i == 71 {
            opt_view(self.proxy_jump)
        } else         if i == 72 {
            opt_view(self.proxy_use_fdpass)
        } else         if i == 73 {
            opt_view(self.pubkey_accepted_algorithms)
        } else         if i == 74 {
            opt_view(self.pubkey_authentication)
        } else         if i == 75 {
            opt_view(self.rekey_limit)
        } else         if i == 76 {
            opt_view(self.remote_command)
        } else         if i == 77 {
            opt_view(self.remote_forward)
        } else         if i == 78 {
            opt_view(self.request_tty)
        } else         if i == 79 {
            opt_view(self.required_rsa_size)
        } else         if i == 80 {
            opt_view(self.revoked_host_keys)
        } else         if i == 81 {
            opt_view(self.security_key_provider)
        } else         if i == 82 {
            opt_view(self.send_env)
        } else         if i == 83 {
            opt_view(self.server_alive_count_max)
        } else         if i == 84 {
            opt_view(self.server_alive_interval)
        } else         if i == 85 {
            opt_view(self.session_type)
        } else         if i == 86 {
            opt_view(self.set_env)
        } else         if i == 87 {
            opt_view(self.stdin_null)
        } else         if i == 88 {
            opt_view(self.stream_local_bind_mask)
        } else         if i == 89 {
            opt_view(self.stream_local_bind_unlink)
        } else         if i == 90 {
            opt_view(self.strict_host_key_checking)
        } else         if i == 91 {
            opt_view(self.syslog_facility)
        } else         if i == 92 {
            opt_view(self.tag)
        } else         if i == 93 {
            opt_view(self.tcp_keep_alive)
        } else         if i == 94 {
            opt_view(self.tunnel)
        } else         if i == 95 {
            opt_view(self.tunnel_device)
        } else         if i == 96 {
            opt_view(self.update_host_keys)
        } else         if i == 97 {
            opt_view(self.user)
        } else         if i == 98 {
            opt_view(self.user_known_hosts_file)
        } else         if i == 99 {
            opt_view(self.verify_host_key_dns)
        } else         if i == 100 {
            opt_view(self.visual_host_key)
        } else         if i == 101 {
            opt_view(self.x_auth_location)
        } else {
            None
        }
    }

    /// The value of every field, in field order.
    pub open spec fn field_values(self) -> Seq<Option<Seq<char>>> {
        Seq::new(HOST_FIELD_COUNT as nat, |i: int| self.field_value(i))
    }

    /// The value of field `i`.
    pub(crate) fn field_value_at(&self, i: usize) -> (r: Option<String>)
        requires
            i < HOST_FIELD_COUNT,
        ensures
            opt_view(r) == self.field_value(i as int),
    {
        match i {
            0 => self.add_keys_to_agent.clone(),
            1 => self.address_family.clone(),
            2 => Some(self.aliases.clone()),
            3 => self.batch_mode.clone(),
            4 => self.bind_address.clone(),
            5 => self.bind_interface.clone(),
            6 => self.ca_signature_algorithms.clone(),
            7 => self.canonical_domains.clone(),
            8 => self.canonicalize_fallback_local.clone(),
            9 => self.canonicalize_hostname.clone(),
            10 => self.canonicalize_max_dots.clone(),
            11 => self.canonicalize_permitted_cnames.clone(),
            12 => self.certificate_file.clone(),
            13 => self.channel_timeout.clone(),
            14 => self.check_host_ip.clone(),
            15 => self.ciphers.clone(),
            16 => self.clear_all_forwardings.clone(),
            17 => self.compression.clone(),
            18 => self.connect_timeout.clone(),
            19 => self.connection_attempts.clone(),
            20 => self.control_master.clone(),
            21 => self.control_path.clone(),
            22 => self.control_persist.clone(),
            23 => self.dynamic_forward.clone(),
            24 => self.enable_escape_commandline.clone(),
            25 => self.enable_ssh_keysign.clone(),
            26 => self.escape_char.clone(),
            27 => self.exit_on_forward_failure.clone(),
            28 => self.fingerprint_hash.clone(),
            29 => self.fork_after_authentication.clone(),
            30 => self.forward_agent.clone(),
            31 => self.forward_x11.clone(),
            32 => self.forward_x11_timeout.clone(),
            33 => self.forward_x11_trusted.clone(),
            34 => self.gateway_ports.clone(),
            35 => self.global_known_hosts_file.clone(),
            36 => self.gssapi_authentication.clone(),
            37 => self.gssapi_delegate_credentials.clone(),
            38 => self.hash_known_hosts.clone(),
            39 => self.host_key_algorithms.clone(),
            40 => self.host_key_alias.clone(),
            41 => self.hostbased_accepted_algorithms.clone(),
            42 => self.hostbased_authentication.clone(),
            43 => Some(self.hostname.clone()),
            44 => self.identities_only.clone(),
            45 => self.identity_agent.clone(),
            46 => self.identity_file.clone(),
            47 => self.ignore_unknown.clone(),
            48 => self.include_files.clone(),
            49 => self.ipqos.clone(),
            50 => self.kbd_interactive_authentication.clone(),
            51 => self.kbd_interactive_devices.clone(),
            52 => self.kex_algorithms.clone(),
            53 => self.known_hosts_command.clone(),
            54 => self.local_command.clone(),
            55 => self.local_forward.clone(),
            56 => self.log_level.clone(),
            57 => self.log_verbose.clone(),
            58 => self.macs.clone(),
            59 => self.match_field.clone(),
            60 => Some(self.name.clone()),
            61 => self.no_host_authentication_for_localhost.clone(),
            62 => self.number_of_password_prompts.clone(),
            63 => self.obscure_keystroke_timing.clone(),
            64 => self.password_authentication.clone(),
            65 => self.permit_local_command.clone(),
            66 => self.permit_remote_open.clone(),
            67 => self.pkcs11_provider.clone(),
            68 => self.port.clone(),
            69 => self.preferred_authentications.clone(),
            70 => self.proxy_command.clone(),
            71 => self.proxy_jump.clone(),
            72 => self.proxy_use_fdpass.clone(),
            73 => self.pubkey_accepted_algorithms.clone(),
            74 => self.pubkey_authentication.clone(),
            75 => self.rekey_limit.clone(),
            76 => self.remote_command.clone(),
            77 => self.remote_forward.clone(),
            78 => self.request_tty.clone(),
            79 => self.required_rsa_size.clone(),
            80 => self.revoked_host_keys.clone(),
            81 => self.security_key_provider.clone(),
            82 => self.send_env.clone(),
            83 => self.server_alive_count_max.clone(),
            84 => self.server_alive_interval.clone(),
            85 => self.session_type.clone(),
            86 => self.set_env.clone(),
            87 => self.stdin_null.clone(),
            88 => self.stream_local_bind_mask.clone(),
            89 => self.stream_local_bind_unlink.clone(),
            90 => self.strict_host_key_checking.clone(),
            91 => self.syslog_facility.clone(),
            92 => self.tag.clone(),
            93 => self.tcp_keep_alive.clone(),
            94 => self.tunnel.clone(),
            95 => self.tunnel_device.clone(),
            96 => self.update_host_keys.clone(),
            97 => self.user.clone(),
            98 => self.user_known_hosts_file.clone(),
            99 => self.verify_host_key_dns.clone(),
            100 => self.visual_host_key.clone(),
            101 => self.x_auth_location.clone(),
            _ => None,
        }
    }
}

/// The name of field `i` of `Host`.
pub open spec fn field_name(i: int) -> Seq<char> {
    if i == 0 {
        "add_keys_to_agent"@
    } else     if i == 1 {
        "address_family"@
    } else     if i == 2 {
        "aliases"@
    } else     if i == 3 {
        "batch_mode"@
    } else     if i == 4 {
        "bind_address"@
    } else     if i == 5 {
        "bind_interface"@
    } else     if i == 6 {
        "ca_signature_algorithms"@
    } else     if i == 7 {
        "canonical_domains"@
    } else     if i == 8 {
        "canonicalize_fallback_local"@
    } else     if i == 9 {
        "canonicalize_hostname"@
    } else     if i == 10 {
        "canonicalize_max_dots"@
    } else     if i == 11 {
        "canonicalize_permitted_cnames"@
    } else     if i == 12 {
        "certificate_file"@
    } else     if i == 13 {
        "channel_timeout"@
    } else     if i == 14 {
        "check_host_ip"@
    } else     if i == 15 {
        "ciphers"@
    } else     if i == 16 {
        "clear_all_forwardings"@
    } else     if i == 17 {
        "compression"@
    } else     if i == 18 {
        "connect_timeout"@
    } else     if i == 19 {
        "connection_attempts"@
    } else     if i == 20 {
        "control_master"@
    } else     if i == 21 {
        "control_path"@
    } else     if i == 22 {
        "control_persist"@
    } else     if i == 23 {
        "dynamic_forward"@
    } else     if i == 24 {
        "enable_escape_commandline"@
    } else     if i == 25 {
        "enable_ssh_keysign"@
    } else     if i == 26 {
        "escape_char"@
    } else     if i == 27 {
        "exit_on_forward_failure"@
    } else     if i == 28 {
        "fingerprint_hash"@
    } else     if i == 29 {
        "fork_after_authentication"@
    } else     if i == 30 {
        "forward_agent"@
    } else     if i == 31 {
        "forward_x11"@
    } else     if i == 32 {
        "forward_x11_timeout"@
    } else     if i == 33 {
        "forward_x11_trusted"@
    } else     if i == 34 {
        "gateway_ports"@
    } else     if i == 35 {
        "global_known_hosts_file"@
    } else     if i == 36 {
        "gssapi_authentication"@
    } else     if i == 37 {
        "gssapi_delegate_credentials"@
    } else     if i == 38 {
        "hash_known_hosts"@
    } else     if i == 39 {
        "host_key_algorithms"@
    } else     if i == 40 {
        "host_key_alias"@
    } else     if i == 41 {
        "hostbased_accepted_algorithms"@
    } else     if i == 42 {
        "hostbased_authentication"@
    } else     if i == 43 {
        "hostname"@
    } else     if i == 44 {
        "identities_only"@
    } else     if i == 45 {
        "identity_agent"@
    } else     if i == 46 {
        "identity_file"@
    } else     if i == 47 {
        "ignore_unknown"@
    } else     if i == 48 {
        "include"@
    } else     if i == 49 {
        "ipqos"@
    } else     if i == 50 {
        "kbd_interactive_authentication"@
    } else     if i == 51 {
        "kbd_interactive_devices"@
    } else     if i == 52 {
        "kex_algorithms"@
    } else     if i == 53 {
        "known_hosts_command"@
    } else     if i == 54 {
        "local_command"@
    } else     if i == 55 {
        "local_forward"@
    } else     if i == 56 {
        "log_level"@
    } else     if i == 57 {
        "log_verbose"@
    } else     if i == 58 {
        "macs"@
    } else     if i == 59 {
        "match_field"@
    } else     if i == 60 {
        "name"@
    } else     if i == 61 {
        "no_host_authentication_for_localhost"@
    } else     if i == 62 {
        "number_of_password_prompts"@
    } else     if i == 63 {
        "obscure_keystroke_timing"@
    } else     if i == 64 {
        "password_authentication"@
    } else     if i == 65 {
        "permit_local_command"@
    } else     if i == 66 {
        "permit_remote_open"@
    } else     if i == 67 {
        "pkcs11_provider"@
    } else     if i == 68 {
        "port"@
    } else     if i == 69 {
        "preferred_authentications"@
    } else     if i == 70 {
        "proxy_command"@
    } else     if i == 71 {
        "proxy_jump"@
    } else     if i == 72 {
        "proxy_use_fdpass"@
    } else     if i == 73 {
        "pubkey_accepted_algorithms"@
    } else     if i == 74 {
        "pubkey_authentication"@
    } else     if i == 75 {
        "rekey_limit"@
    } else     if i == 76 {
        "remote_command"@
    } else     if i == 77 {
        "remote_forward"@
    } else     if i == 78 {
        "request_tty"@
    } else     if i == 79 {
        "required_rsa_size"@
    } else     if i == 80 {
        "revoked_host_keys"@
    } else     if i == 81 {
        "security_key_provider"@
    } else     if i == 82 {
        "send_env"@
    } else     if i == 83 {
        "server_alive_count_max"@
    } else     if i == 84 {
        "server_alive_interval"@
    } else     if i == 85 {
        "session_type"@
    } else     if i == 86 {
        "set_env"@
    } else     if i == 87 {
        "stdin_null"@
    } else     if i == 88 {
        "stream_local_bind_mask"@
    } else     if i == 89 {
        "stream_local_bind_unlink"@
    } else     if i == 90 {
        "strict_host_key_checking"@
    } else     if i == 91 {
        "syslog_facility"@
    } else     if i == 92 {
        "tag"@
    } else     if i == 93 {
        "tcp_keep_alive"@
    } else     if i == 94 {
        "tunnel"@
    } else     if i == 95 {
        "tunnel_device"@
    } else     if i == 96 {
        "update_host_keys"@
    } else     if i == 97 {
        "user"@
    } else     if i == 98 {
        "user_known_hosts_file"@
    } else     if i == 99 {
        "verify_host_key_dns"@
    } else     if i == 100 {
        "visual_host_key"@
    } else     if i == 101 {
        "x_auth_location"@
    } else {
        Seq::<char>::empty()
    }
}

/// The names of the fields of `Host`, in order.
pub open spec fn field_names() -> Seq<Seq<char>> {
    Seq::new(HOST_FIELD_COUNT as nat, |i: int| field_name(i))
}

/// The name of field `i`.
pub(crate) fn field_name_at(i: usize) -> (r: &'static str)
    requires
        i < HOST_FIELD_COUNT,
    ensures
        r@ == field_name(i as int),
{
    match i {
        0 => "add_keys_to_agent",
        1 => "address_family",
        2 => "aliases",
        3 => "batch_mode",
        4 => "bind_address",
        5 => "bind_interface",
        6 => "ca_signature_algorithms",
        7 => "canonical_domains",
        8 => "canonicalize_fallback_local",
        9 => "canonicalize_hostname",
        10 => "canonicalize_max_dots",
        11 => "canonicalize_permitted_cnames",
        12 => "certificate_file",
        13 => "channel_timeout",
        14 => "check_host_ip",
        15 => "ciphers",
        16 => "clear_all_forwardings",
        17 => "compression",
        18 => "connect_timeout",
        19 => "connection_attempts",
        20 => "control_master",
        21 => "control_path",
        22 => "control_persist",
        23 => "dynamic_forward",
        24 => "enable_escape_commandline",
        25 => "enable_ssh_keysign",
        26 => "escape_char",
        27 => "exit_on_forward_failure",
        28 => "fingerprint_hash",
        29 => "fork_after_authentication",
        30 => "forward_agent",
        31 => "forward_x11",
        32 => "forward_x11_timeout",
        33 => "forward_x11_trusted",
        34 => "gateway_ports",
        35 => "global_known_hosts_file",
        36 => "gssapi_authentication",
        37 => "gssapi_delegate_credentials",
        38 => "hash_known_hosts",
        39 => "host_key_algorithms",
        40 => "host_key_alias",
        41 => "hostbased_accepted_algorithms",
        42 => "hostbased_authentication",
        43 => "hostname",
        44 => "identities_only",
        45 => "identity_agent",
        46 => "identity_file",
        47 => "ignore_unknown",
        48 => "include",
        49 => "ipqos",
        50 => "kbd_interactive_authentication",
        51 => "kbd_interactive_devices",
        52 => "kex_algorithms",
        53 => "known_hosts_command",
        54 => "local_command",
        55 => "local_forward",
        56 => "log_level",
        57 => "log_verbose",
        58 => "macs",
        59 => "match_field",
        60 => "name",
        61 => "no_host_authentication_for_localhost",
        62 => "number_of_password_prompts",
        63 => "obscure_keystroke_timing",
        64 => "password_authentication",
        65 => "permit_local_command",
        66 => "permit_remote_open",
        67 => "pkcs11_provider",
        68 => "port",
        69 => "preferred_authentications",
        70 => "proxy_command",
        71 => "proxy_jump",
        72 => "proxy_use_fdpass",
        73 => "pubkey_accepted_algorithms",
        74 => "pubkey_authentication",
        75 => "rekey_limit",
        76 => "remote_command",
        77 => "remote_forward",
        78 => "request_tty",
        79 => "required_rsa_size",
        80 => "revoked_host_keys",
        81 => "security_key_provider",
        82 => "send_env",
        83 => "server_alive_count_max",
        84 => "server_alive_interval",
        85 => "session_type",
        86 => "set_env",
        87 => "stdin_null",
        88 => "stream_local_bind_mask",
        89 => "stream_local_bind_unlink",
        90 => "strict_host_key_checking",
        91 => "syslog_facility",
        92 => "tag",
        93 => "tcp_keep_alive",
        94 => "tunnel",
        95 => "tunnel_device",
        96 => "update_host_keys",
        97 => "user",
        98 => "user_known_hosts_file",
        99 => "verify_host_key_dns",
        100 => "visual_host_key",
        101 => "x_auth_location",
        _ => "",
    }
}

/// Number of fields of `Host`.
pub const HOST_FIELD_COUNT: usize = 102;

/// Field name and value of the fields below `n` whose value is present and
/// not blank, in field order.
pub open spec fn present_fields(names: Seq<Seq<char>>, values: Seq<Option<Seq<char>>>, n: nat) -> Seq<(Seq<char>, Seq<char>)>
    decreases n,
{
    if n == 0 {
        seq![]
    } else {
        let prev = present_fields(names, values, (n - 1) as nat);
        match values[n - 1] {
            Some(v) => if is_blank(v) {
                prev
            } else {
                prev.push((names[n - 1], v))
            },
            None => prev,
        }
    }
}

/// Returns the names of all fields of a host record, in order.
pub fn get_all_host_fields() -> (r: Vec<String>)
    ensures
        strings_view(r@) == field_names(),
{
    let mut r: Vec<String> = Vec::new();
    let mut i: usize = 0;
    while i < HOST_FIELD_COUNT
        invariant
            i <= HOST_FIELD_COUNT,
            strings_view(r@) == field_names().take(i as int),
        decreases HOST_FIELD_COUNT - i,
    {
        let ghost before = r@;
        let name = String::from_str(field_name_at(i));
        assert(name@ == field_names()[i as int]);
        r.push(name);
        assert(strings_view(r@) =~= strings_view(before).push(name@));
        assert(strings_view(r@) =~= field_names().take(i + 1));
        i = i + 1;
    }
    assert(field_names().take(HOST_FIELD_COUNT as int) =~= field_names());
    r
}

impl Host {
    /// Return all fields as (key, value) pairs where the value is a nonblank
    /// string, in field order.
    pub fn iter_fields(&self) -> (r: Vec<(String, String)>)
        ensures
            r@.map_values(|p: (String, String)| (p.0@, p.1@)) == present_fields(
                field_names(),
                self.field_values(),
                HOST_FIELD_COUNT as nat,
            ),
    {
        let ghost nv = field_names();
        let ghost vv = self.field_values();
        let mut fields: Vec<(String, String)> = Vec::new();
        let mut i: usize = 0;
        while i < HOST_FIELD_COUNT
            invariant
                i <= HOST_FIELD_COUNT,
                nv == field_names(),
                vv == self.field_values(),
                fields@.map_values(|p: (String, String)| (p.0@, p.1@)) == present_fields(
                    nv,
                    vv,
                    i as nat,
                ),
            decreases HOST_FIELD_COUNT - i,
        {
            match self.field_value_at(i) {
                Some(s) => {
                    if !blank(s.as_str()) {
                        let ghost before = fields@;
                        fields.push((String::from_str(field_name_at(i)), s));
                        assert(fields@.map_values(|p: (String, String)| (p.0@, p.1@))
                            =~= before.map_values(|p: (String, String)| (p.0@, p.1@)).push(
                            (nv[i as int], vv[i as int]->0),
                        ));
                    }
                },
                None => {},
            }
            i = i + 1;
        }
        fields
    }
}

/// The record for a host block: its first pattern as name, its other
/// patterns joined by spaces as aliases, its host name (empty when unset),
/// and for every other option the single value the block records.
pub open spec fn describes_block(h: Host, m: HostModel) -> bool {
    &&& h.name@ == (if m.patterns.len() > 0 { m.patterns[0] } else { Seq::<char>::empty() })
    &&& h.aliases@ == (if m.patterns.len() > 0 {
        seq_join(m.patterns.skip(1), seq![' '])
    } else {
        Seq::<char>::empty()
    })
    &&& h.hostname@ == (match m.single_value(EntryType::Hostname) {
        Some(v) => v,
        None => Seq::<char>::empty(),
    })
    &&& opt_view(h.add_keys_to_agent) == m.single_value(EntryType::AddKeysToAgent)
    &&& opt_view(h.address_family) == m.single_value(EntryType::AddressFamily)
    &&& opt_view(h.batch_mode) == m.single_value(EntryType::BatchMode)
    &&& opt_view(h.bind_address) == m.single_value(EntryType::BindAddress)
    &&& opt_view(h.bind_interface) == m.single_value(EntryType::BindInterface)
    &&& opt_view(h.ca_signature_algorithms) == m.single_value(EntryType::CASignatureAlgorithms)
    &&& opt_view(h.canonical_domains) == m.single_value(EntryType::CanonicalDomains)
    &&& opt_view(h.canonicalize_fallback_local) == m.single_value(EntryType::CanonicalizeFallbackLocal)
    &&& opt_view(h.canonicalize_hostname) == m.single_value(EntryType::CanonicalizeHostname)
    &&& opt_view(h.canonicalize_max_dots) == m.single_value(EntryType::CanonicalizeMaxDots)
    &&& opt_view(h.canonicalize_permitted_cnames) == m.single_value(EntryType::CanonicalizePermittedCNAMEs)
    &&& opt_view(h.certificate_file) == m.single_value(EntryType::CertificateFile)
    &&& opt_view(h.channel_timeout) == m.single_value(EntryType::ChannelTimeout)
    &&& opt_view(h.check_host_ip) == m.single_value(EntryType::CheckHostIP)
    &&& opt_view(h.ciphers) == m.single_value(EntryType::Ciphers)
    &&& opt_view(h.clear_all_forwardings) == m.single_value(EntryType::ClearAllForwardings)
    &&& opt_view(h.compression) == m.single_value(EntryType::Compression)
    &&& opt_view(h.connect_timeout) == m.single_value(EntryType::ConnectTimeout)
    &&& opt_view(h.connection_attempts) == m.single_value(EntryType::ConnectionAttempts)
    &&& opt_view(h.control_master) == m.single_value(EntryType::ControlMaster)
    &&& opt_view(h.control_path) == m.single_value(EntryType::ControlPath)
    &&& opt_view(h.control_persist) == m.single_value(EntryType::ControlPersist)
    &&& opt_view(h.dynamic_forward) == m.single_value(EntryType::DynamicForward)
    &&& opt_view(h.enable_escape_commandline) == m.single_value(EntryType::EnableEscapeCommandline)
    &&& opt_view(h.enable_ssh_keysign) == m.single_value(EntryType::EnableSSHKeysign)
    &&& opt_view(h.escape_char) == m.single_value(EntryType::EscapeChar)
    &&& opt_view(h.exit_on_forward_failure) == m.single_value(EntryType::ExitOnForwardFailure)
    &&& opt_view(h.fingerprint_hash) == m.single_value(EntryType::FingerprintHash)
    &&& opt_view(h.fork_after_authentication) == m.single_value(EntryType::ForkAfterAuthentication)
    &&& opt_view(h.forward_agent) == m.single_value(EntryType::ForwardAgent)
    &&& opt_view(h.forward_x11) == m.single_value(EntryType::ForwardX11)
    &&& opt_view(h.forward_x11_timeout) == m.single_value(EntryType::ForwardX11Timeout)
    &&& opt_view(h.forward_x11_trusted) == m.single_value(EntryType::ForwardX11Trusted)
    &&& opt_view(h.gateway_ports) == m.single_value(EntryType::GatewayPorts)
    &&& opt_view(h.global_known_hosts_file) == m.single_value(EntryType::GlobalKnownHostsFile)
    &&& opt_view(h.gssapi_authentication) == m.single_value(EntryType::GSSAPIAuthentication)
    &&& opt_view(h.gssapi_delegate_credentials) == m.single_value(EntryType::GSSAPIDelegateCredentials)
    &&& opt_view(h.hash_known_hosts) == m.single_value(EntryType::HashKnownHosts)
    &&& opt_view(h.host_key_algorithms) == m.single_value(EntryType::HostKeyAlgorithms)
    &&& opt_view(h.host_key_alias) == m.single_value(EntryType::HostKeyAlias)
    &&& opt_view(h.hostbased_accepted_algorithms) == m.single_value(EntryType::HostbasedAcceptedAlgorithms)
    &&& opt_view(h.hostbased_authentication) == m.single_value(EntryType::HostbasedAuthentication)
    &&& opt_view(h.identities_only) == m.single_value(EntryType::IdentitiesOnly)
    &&& opt_view(h.identity_agent) == m.single_value(EntryType::IdentityAgent)
    &&& opt_view(h.identity_file) == m.single_value(EntryType::IdentityFile)
    &&& opt_view(h.ignore_unknown) == m.single_value(EntryType::IgnoreUnknown)
    &&& opt_view(h.include_files) == m.single_value(EntryType::Include)
    &&& opt_view(h.ipqos) == m.single_value(EntryType::IPQoS)
    &&& opt_view(h.kbd_interactive_authentication) == m.single_value(EntryType::KbdInteractiveAuthentication)
    &&& opt_view(h.kbd_interactive_devices) == m.single_value(EntryType::KbdInteractiveDevices)
    &&& opt_view(h.kex_algorithms) == m.single_value(EntryType::KexAlgorithms)
    &&& opt_view(h.known_hosts_command) == m.single_value(EntryType::KnownHostsCommand)
    &&& opt_view(h.local_command) == m.single_value(EntryType::LocalCommand)
    &&& opt_view(h.local_forward) == m.single_value(EntryType::LocalForward)
    &&& opt_view(h.log_level) == m.single_value(EntryType::LogLevel)
    &&& opt_view(h.log_verbose) == m.single_value(EntryType::LogVerbose)
    &&& opt_view(h.macs) == m.single_value(EntryType::MACs)
    &&& opt_view(h.match_field) == m.single_value(EntryType::Match)
    &&& opt_view(h.no_host_authentication_for_localhost) == m.single_value(EntryType::NoHostAuthenticationForLocalhost)
    &&& opt_view(h.number_of_password_prompts) == m.single_value(EntryType::NumberOfPasswordPrompts)
    &&& opt_view(h.obscure_keystroke_timing) == m.single_value(EntryType::ObscureKeystrokeTiming)
    &&& opt_view(h.password_authentication) == m.single_value(EntryType::PasswordAuthentication)
    &&& opt_view(h.permit_local_command) == m.single_value(EntryType::PermitLocalCommand)
    &&& opt_view(h.permit_remote_open) == m.single_value(EntryType::PermitRemoteOpen)
    &&& opt_view(h.pkcs11_provider) == m.single_value(EntryType::PKCS11Provider)
    &&& opt_view(h.port) == m.single_value(EntryType::Port)
    &&& opt_view(h.preferred_authentications) == m.single_value(EntryType::PreferredAuthentications)
    &&& opt_view(h.proxy_command) == m.single_value(EntryType::ProxyCommand)
    &&& opt_view(h.proxy_jump) == m.single_value(EntryType::ProxyJump)
    &&& opt_view(h.proxy_use_fdpass) == m.single_value(EntryType::ProxyUseFdpass)
    &&& opt_view(h.pubkey_accepted_algorithms) == m.single_value(EntryType::PubkeyAcceptedAlgorithms)
    &&& opt_view(h.pubkey_authentication) == m.single_value(EntryType::PubkeyAuthentication)
    &&& opt_view(h.rekey_limit) == m.single_value(EntryType::RekeyLimit)
    &&& opt_view(h.remote_command) == m.single_value(EntryType::RemoteCommand)
    &&& opt_view(h.remote_forward) == m.single_value(EntryType::RemoteForward)
    &&& opt_view(h.request_tty) == m.single_value(EntryType::RequestTTY)
    &&& opt_view(h.required_rsa_size) == m.single_value(EntryType::RequiredRSASize)
    &&& opt_view(h.revoked_host_keys) == m.single_value(EntryType::RevokedHostKeys)
    &&& opt_view(h.security_key_provider) == m.single_value(EntryType::SecurityKeyProvider)
    &&& opt_view(h.send_env) == m.single_value(EntryType::SendEnv)
    &&& opt_view(h.server_alive_count_max) == m.single_value(EntryType::ServerAliveCountMax)
    &&& opt_view(h.server_alive_interval) == m.single_value(EntryType::ServerAliveInterval)
    &&& opt_view(h.session_type) == m.single_value(EntryType::SessionType)
    &&& opt_view(h.set_env) == m.single_value(EntryType::SetEnv)
    &&& opt_view(h.stdin_null) == m.single_value(EntryType::StdinNull)
    &&& opt_view(h.stream_local_bind_mask) == m.single_value(EntryType::StreamLocalBindMask)
    &&& opt_view(h.stream_local_bind_unlink) == m.single_value(EntryType::StreamLocalBindUnlink)
    &&& opt_view(h.strict_host_key_checking) == m.single_value(EntryType::StrictHostKeyChecking)
    &&& opt_view(h.syslog_facility) == m.single_value(EntryType::SyslogFacility)
    &&& opt_view(h.tag) == m.single_value(EntryType::Tag)
    &&& opt_view(h.tcp_keep_alive) == m.single_value(EntryType::TCPKeepAlive)
    &&& opt_view(h.tunnel) == m.single_value(EntryType::Tunnel)
    &&& opt_view(h.tunnel_device) == m.single_value(EntryType::TunnelDevice)
    &&& opt_view(h.update_host_keys) == m.single_value(EntryType::UpdateHostKeys)
    &&& opt_view(h.user) == m.single_value(EntryType::User)
    &&& opt_view(h.user_known_hosts_file) == m.single_value(EntryType::UserKnownHostsFile)
    &&& opt_view(h.verify_host_key_dns) == m.single_value(EntryType::VerifyHostKeyDNS)
    &&& opt_view(h.visual_host_key) == m.single_value(EntryType::VisualHostKey)
    &&& opt_view(h.x_auth_location) == m.single_value(EntryType::XAuthLocation)
}

impl Host {
    /// Builds the record for a host block.
    pub fn from_config_host(block: &ConfigHost) -> (r: Host)
        ensures
            describes_block(r, block@),
    {
        let patterns = block.get_patterns();
        let name = if patterns.len() > 0 {
            patterns[0].clone()
        } else {
            String::new()
        };
        let ghost pv = block@.patterns;
        let n = patterns.len();
        let start: usize = if n > 0 { 1 } else { 0 };
        let mut rest: Vec<String> = Vec::new();
        let mut k: usize = start;
        while k < n
            invariant
                start <= k <= n,
                n == patterns@.len(),
                start == (if n > 0 { 1usize } else { 0usize }),
                strings_view(patterns@) == pv,
                strings_view(rest@) == pv.subrange(start as int, k as int),
            decreases n - k,
        {
            let ghost before = rest@;
            rest.push(patterns[k].clone());
            assert(pv[k as int] == patterns@[k as int]@);
            assert(strings_view(rest@) =~= strings_view(before).push(pv[k as int]));
            assert(strings_view(rest@) =~= pv.subrange(start as int, k + 1));
            k = k + 1;
        }
        proof {
            reveal_strlit(" ");
            if n == 0 {
                assert(rest@.len() == 0);
                assert(strings_view(rest@) =~= Seq::<Seq<char>>::empty());
            } else {
                assert(pv.skip(1) =~= pv.subrange(1, n as int));
            }
        }
        let sep = " ";
        proof {
            reveal_strlit(" ");
            assert(sep@ =~= seq![' ']);
        }
        let aliases = join_strings(rest.as_slice(), sep);
        let hostname = match block.get(&EntryType::Hostname) {
            Some(v) => v,
            None => String::new(),
        };
        assert(name@ == (if pv.len() > 0 { pv[0] } else { Seq::<char>::empty() }));
        assert(aliases@ == (if pv.len() > 0 {
            seq_join(pv.skip(1), seq![' '])
        } else {
            Seq::<char>::empty()
        }));
        Host {
            name,
            aliases,
            hostname,
            add_keys_to_agent: block.get(&EntryType::AddKeysToAgent),
            address_family: block.get(&EntryType::AddressFamily),
            batch_mode: block.get(&EntryType::BatchMode),
            bind_address: block.get(&EntryType::BindAddress),
            bind_interface: block.get(&EntryType::BindInterface),
            ca_signature_algorithms: block.get(&EntryType::CASignatureAlgorithms),
            canonical_domains: block.get(&EntryType::CanonicalDomains),
            canonicalize_fallback_local: block.get(&EntryType::CanonicalizeFallbackLocal),
            canonicalize_hostname: block.get(&EntryType::CanonicalizeHostname),
            canonicalize_max_dots: block.get(&EntryType::CanonicalizeMaxDots),
            canonicalize_permitted_cnames: block.get(&EntryType::CanonicalizePermittedCNAMEs),
            certificate_file: block.get(&EntryType::CertificateFile),
            channel_timeout: block.get(&EntryType::ChannelTimeout),
            check_host_ip: block.get(&EntryType::CheckHostIP),
            ciphers: block.get(&EntryType::Ciphers),
            clear_all_forwardings: block.get(&EntryType::ClearAllForwardings),
            compression: block.get(&EntryType::Compression),
            connect_timeout: block.get(&EntryType::ConnectTimeout),
            connection_attempts: block.get(&EntryType::ConnectionAttempts),
            control_master: block.get(&EntryType::ControlMaster),
            control_path: block.get(&EntryType::ControlPath),
            control_persist: block.get(&EntryType::ControlPersist),
            dynamic_forward: block.get(&EntryType::DynamicForward),
            enable_escape_commandline: block.get(&EntryType::EnableEscapeCommandline),
            enable_ssh_keysign: block.get(&EntryType::EnableSSHKeysign),
            escape_char: block.get(&EntryType::EscapeChar),
            exit_on_forward_failure: block.get(&EntryType::ExitOnForwardFailure),
            fingerprint_hash: block.get(&EntryType::FingerprintHash),
            fork_after_authentication: block.get(&EntryType::ForkAfterAuthentication),
            forward_agent: block.get(&EntryType::ForwardAgent),
            forward_x11: block.get(&EntryType::ForwardX11),
            forward_x11_timeout: block.get(&EntryType::ForwardX11Timeout),
            forward_x11_trusted: block.get(&EntryType::ForwardX11Trusted),
            gateway_ports: block.get(&EntryType::GatewayPorts),
            global_known_hosts_file: block.get(&EntryType::GlobalKnownHostsFile),
            gssapi_authentication: block.get(&EntryType::GSSAPIAuthentication),
            gssapi_delegate_credentials: block.get(&EntryType::GSSAPIDelegateCredentials),
            hash_known_hosts: block.get(&EntryType::HashKnownHosts),
            host_key_algorithms: block.get(&EntryType::HostKeyAlgorithms),
            host_key_alias: block.get(&EntryType::HostKeyAlias),
            hostbased_accepted_algorithms: block.get(&EntryType::HostbasedAcceptedAlgorithms),
            hostbased_authentication: block.get(&EntryType::HostbasedAuthentication),
            identities_only: block.get(&EntryType::IdentitiesOnly),
            identity_agent: block.get(&EntryType::IdentityAgent),
            identity_file: block.get(&EntryType::IdentityFile),
            ignore_unknown: block.get(&EntryType::IgnoreUnknown),
            include_files: block.get(&EntryType::Include),
            ipqos: block.get(&EntryType::IPQoS),
            kbd_interactive_authentication: block.get(&EntryType::KbdInteractiveAuthentication),
            kbd_interactive_devices: block.get(&EntryType::KbdInteractiveDevices),
            kex_algorithms: block.get(&EntryType::KexAlgorithms),
            known_hosts_command: block.get(&EntryType::KnownHostsCommand),
            local_command: block.get(&EntryType::LocalCommand),
            local_forward: block.get(&EntryType::LocalForward),
            log_level: block.get(&EntryType::LogLevel),
            log_verbose: block.get(&EntryType::LogVerbose),
            macs: block.get(&EntryType::MACs),
            match_field: block.get(&EntryType::Match),
            no_host_authentication_for_localhost: block.get(&EntryType::NoHostAuthenticationForLocalhost),
            number_of_password_prompts: block.get(&EntryType::NumberOfPasswordPrompts),
            obscure_keystroke_timing: block.get(&EntryType::ObscureKeystrokeTiming),
            password_authentication: block.get(&EntryType::PasswordAuthentication),
            permit_local_command: block.get(&EntryType::PermitLocalCommand),
            permit_remote_open: block.get(&EntryType::PermitRemoteOpen),
            pkcs11_provider: block.get(&EntryType::PKCS11Provider),
            port: block.get(&EntryType::Port),
            preferred_authentications: block.get(&EntryType::PreferredAuthentications),
            proxy_command: block.get(&EntryType::ProxyCommand),
            proxy_jump: block.get(&EntryType::ProxyJump),
            proxy_use_fdpass: block.get(&EntryType::ProxyUseFdpass),
            pubkey_accepted_algorithms: block.get(&EntryType::PubkeyAcceptedAlgorithms),
            pubkey_authentication: block.get(&EntryType::PubkeyAuthentication),
            rekey_limit: block.get(&EntryType::RekeyLimit),
            remote_command: block.get(&EntryType::RemoteCommand),
            remote_forward: block.get(&EntryType::RemoteForward),
            request_tty: block.get(&EntryType::RequestTTY),
            required_rsa_size: block.get(&EntryType::RequiredRSASize),
            revoked_host_keys: block.get(&EntryType::RevokedHostKeys),
            security_key_provider: block.get(&EntryType::SecurityKeyProvider),
            send_env: block.get(&EntryType::SendEnv),
            server_alive_count_max: block.get(&EntryType::ServerAliveCountMax),
            server_alive_interval: block.get(&EntryType::ServerAliveInterval),
            session_type: block.get(&EntryType::SessionType),
            set_env: block.get(&EntryType::SetEnv),
            stdin_null: block.get(&EntryType::StdinNull),
            stream_local_bind_mask: block.get(&EntryType::StreamLocalBindMask),
            stream_local_bind_unlink: block.get(&EntryType::StreamLocalBindUnlink),
            strict_host_key_checking: block.get(&EntryType::StrictHostKeyChecking),
            syslog_facility: block.get(&EntryType::SyslogFacility),
            tag: block.get(&EntryType::Tag),
            tcp_keep_alive: block.get(&EntryType::TCPKeepAlive),
            tunnel: block.get(&EntryType::Tunnel),
            tunnel_device: block.get(&EntryType::TunnelDevice),
            update_host_keys: block.get(&EntryType::UpdateHostKeys),
            user: block.get(&EntryType::User),
            user_known_hosts_file: block.get(&EntryType::UserKnownHostsFile),
            verify_host_key_dns: block.get(&EntryType::VerifyHostKeyDNS),
            visual_host_key: block.get(&EntryType::VisualHostKey),
            x_auth_location: block.get(&EntryType::XAuthLocation),
        }
    }
}

/// The name a host record gets from a block.
pub open spec fn block_name(m: HostModel) -> Seq<char> {
    if m.patterns.len() > 0 {
        m.patterns[0]
    } else {
        Seq::<char>::empty()
    }
}

/// The blocks whose record is listed: all but those named `.host`.
pub open spec fn listed_blocks(hs: Seq<HostModel>) -> Seq<HostModel>
    decreases hs.len(),
{
    if hs.len() == 0 {
        seq![]
    } else if block_name(hs.last()) == ".host"@ {
        listed_blocks(hs.drop_last())
    } else {
        listed_blocks(hs.drop_last()).push(hs.last())
    }
}

/// The blocks a configuration resolves to: wildcards applied, host names
/// defaulted, identical blocks merged.
pub open spec fn resolved_blocks(hs: Seq<HostModel>) -> Seq<HostModel> {
    merged_hosts(named_hosts(patterns_applied(hs)))
}

/// Resolving a configuration succeeds: wildcards can be applied and every
/// resulting block without host name has a pattern to take it from.
pub open spec fn resolvable(hs: Seq<HostModel>) -> bool {
    patterns_resolvable(hs) && hostnames_derivable(patterns_applied(hs))
}

/// Turns the host blocks of a configuration into the list of host records:
/// wildcard blocks are applied, blocks without host name take their first
/// pattern, blocks with identical entries are merged, and the record named
/// `.host` is dropped. `None` when a wildcard pattern does not compile or a
/// block has no pattern where one is needed.
pub fn hosts_from_config_hosts(blocks: Vec<ConfigHost>) -> (r: Option<Vec<Host>>)
    ensures
        r is Some <==> resolvable(models(blocks@)),
        r matches Some(v) ==> {
            let listed = listed_blocks(resolved_blocks(models(blocks@)));
            &&& v@.len() == listed.len()
            &&& forall|i: int| 0 <= i < v@.len() ==> describes_block(#[trigger] v@[i], listed[i])
        },
{
    let ghost m0 = models(blocks@);
    let mut wildcard_seen = false;
    let mut patternless_seen = false;
    let mut i: usize = 0;
    while i < blocks.len()
        invariant
            i <= blocks@.len(),
            m0 == models(blocks@),
            forall|k: int| 0 <= k < i ==> crate::pattern::patterns_compile(#[trigger] m0[k].patterns),
            wildcard_seen == exists|k: int, j: int|
                0 <= k < i && 0 <= j < m0[k].patterns.len() && has_wildcard(
                    #[trigger] m0[k].patterns[j],
                ),
            patternless_seen == exists|k: int| 0 <= k < i && (#[trigger] m0[k]).patterns.len() == 0,
        decreases blocks@.len() - i,
    {
        let b = &blocks[i];
        assert(m0[i as int] == b@);
        match b.try_matching_pattern_regexes() {
            Some(rules) => {
                if rules.len() > 0 {
                    proof {
                        lemma_rules_have_wildcard(b@.patterns);
                    }
                    wildcard_seen = true;
                } else {
                    proof {
                        if exists|j: int| 0 <= j < b@.patterns.len() && has_wildcard(
                            #[trigger] b@.patterns[j],
                        ) {
                            assert(pattern_rules(b@.patterns).len() == 0);
                            let j = choose|j: int| 0 <= j < b@.patterns.len() && has_wildcard(
                                #[trigger] b@.patterns[j],
                            );
                            assert(false) by {
                                lemma_wildcard_has_rules(b@.patterns, j);
                            }
                        }
                    }
                }
            },
            None => {
                return None;
            },
        }
        if b.get_patterns().len() == 0 {
            patternless_seen = true;
        }
        i = i + 1;
    }
    if wildcard_seen && patternless_seen {
        return None;
    }
    assert(patterns_resolvable(m0));
    let mut hosts = blocks;
    hosts.apply_patterns();
    let ghost m1 = models(hosts@);
    assert(m1 == patterns_applied(m0));
    let mut k: usize = 0;
    while k < hosts.len()
        invariant
            k <= hosts@.len(),
            m1 == models(hosts@),
            m1 == patterns_applied(m0),
            m0 == models(blocks@),
            forall|x: int| 0 <= x < k && !(#[trigger] m1[x]).entries.contains_key(EntryType::Hostname)
                ==> m1[x].patterns.len() > 0,
        decreases hosts@.len() - k,
    {
        assert(m1[k as int] == hosts@[k as int]@);
        if hosts[k].get(&EntryType::Hostname).is_none() && hosts[k].get_patterns().len() == 0 {
            assert(!hostnames_derivable(m1));
            return None;
        }
        k = k + 1;
    }
    hosts.apply_name_to_empty_hostname();
    hosts.merge_same_hosts();
    let ghost m3 = models(hosts@);
    let mut out: Vec<Host> = Vec::new();
    let mut t: usize = 0;
    while t < hosts.len()
        invariant
            t <= hosts@.len(),
            m3 == models(hosts@),
            out@.len() == listed_blocks(m3.take(t as int)).len(),
            forall|x: int| 0 <= x < out@.len() ==> describes_block(#[trigger] out@[x], listed_blocks(m3.take(t as int))[x]),
        decreases hosts@.len() - t,
    {
        assert(m3.take(t + 1).drop_last() =~= m3.take(t as int));
        assert(m3.take(t + 1).last() == hosts@[t as int]@);
        let h = Host::from_config_host(&hosts[t]);
        if !same_text(h.name.as_str(), ".host") {
            out.push(h);
        }
        t = t + 1;
    }
    assert(m3.take(m3.len() as int) =~= m3);
    Some(out)
}


/// No listed block is named `.host`.
proof fn lemma_listed_names(hs: Seq<HostModel>)
    ensures
        forall|i: int| 0 <= i < listed_blocks(hs).len() ==> block_name(#[trigger] listed_blocks(hs)[i]) != ".host"@,
    decreases hs.len(),
{
    if hs.len() > 0 {
        lemma_listed_names(hs.drop_last());
        let prev = listed_blocks(hs.drop_last());
        let cur = listed_blocks(hs);
        assert forall|i: int| 0 <= i < cur.len() implies block_name(#[trigger] cur[i]) != ".host"@ by {
            if i < prev.len() {
                assert(cur[i] == prev[i]);
            }
        }
    }
}

/// No host record that a configuration turns into is named `.host`.
pub proof fn law_no_record_named_dot_host(blocks: Seq<HostModel>, v: Seq<Host>)
    requires
        v.len() == listed_blocks(resolved_blocks(blocks)).len(),
        forall|i: int| 0 <= i < v.len() ==> describes_block(#[trigger] v[i], listed_blocks(resolved_blocks(blocks))[i]),
    ensures
        forall|i: int| 0 <= i < v.len() ==> (#[trigger] v[i]).name@ != ".host"@,
{
    lemma_listed_names(resolved_blocks(blocks));
    assert forall|i: int| 0 <= i < v.len() implies (#[trigger] v[i]).name@ != ".host"@ by {
        assert(describes_block(v[i], listed_blocks(resolved_blocks(blocks))[i]));
        assert(block_name(listed_blocks(resolved_blocks(blocks))[i]) != ".host"@);
    }
}

} // verus!
