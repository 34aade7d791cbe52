//! Spec validation: the consistency checks a KafkaPartitionRemapper spec must
//! pass before any cluster mutation, applied in a fixed order with the first
//! failure winning.

use vstd::prelude::*;

use crate::crd::{KafkaPartitionRemapper, KafkaPartitionRemapperSpec};
use crate::error::Error;
use crate::text::str_eq;

verus! {

/// At least one bootstrap server is named.
pub open spec fn bootstrap_ok(s: KafkaPartitionRemapperSpec) -> bool {
    s.kafka.bootstrap_servers@.len() > 0
}

/// At least one physical partition.
pub open spec fn physical_ok(s: KafkaPartitionRemapperSpec) -> bool {
    s.mapping.physical_partitions >= 1
}

/// At least as many virtual as physical partitions.
pub open spec fn virtual_ge_physical(s: KafkaPartitionRemapperSpec) -> bool {
    s.mapping.virtual_partitions >= s.mapping.physical_partitions
}

/// Virtual partitions split evenly over physical partitions.
pub open spec fn divisible_ok(s: KafkaPartitionRemapperSpec) -> bool
    recommends
        physical_ok(s),
{
    s.mapping.virtual_partitions % s.mapping.physical_partitions == 0
}

/// The smallest allowed offset range: 2 to the 20th power.
pub open spec fn min_offset_range() -> u64 {
    0x100000
}

/// The offset range is at least the minimum.
pub open spec fn offset_range_ok(s: KafkaPartitionRemapperSpec) -> bool {
    s.mapping.offset_range >= min_offset_range()
}

/// The replica count is not negative; zero is a legal steady state.
pub open spec fn replicas_ok(s: KafkaPartitionRemapperSpec) -> bool {
    s.replicas >= 0
}

/// The protocol is one of the four recognized values.
pub open spec fn protocol_recognized(p: Seq<char>) -> bool {
    p == "PLAINTEXT"@ || p == "SSL"@ || p == "SASL_PLAINTEXT"@ || p == "SASL_SSL"@
}

/// Protocols that encrypt with TLS.
pub open spec fn ssl_family(p: Seq<char>) -> bool {
    p == "SSL"@ || p == "SASL_SSL"@
}

/// Protocols that authenticate with SASL.
pub open spec fn sasl_family(p: Seq<char>) -> bool {
    p == "SASL_PLAINTEXT"@ || p == "SASL_SSL"@
}

/// A TLS-encrypting protocol names a TLS secret.
pub open spec fn tls_secret_ok(s: KafkaPartitionRemapperSpec) -> bool {
    ssl_family(s.kafka.security_protocol@) ==> s.kafka.tls_secret is Some
}

/// A SASL-authenticating protocol names a SASL secret.
pub open spec fn sasl_secret_ok(s: KafkaPartitionRemapperSpec) -> bool {
    sasl_family(s.kafka.security_protocol@) ==> s.kafka.sasl_secret is Some
}

/// A spec is valid when every check passes. Validity never depends on the
/// suspend flag: suspension is a scaling decision, not a consistency matter.
pub open spec fn spec_valid(s: KafkaPartitionRemapperSpec) -> bool {
    &&& bootstrap_ok(s)
    &&& physical_ok(s)
    &&& virtual_ge_physical(s)
    &&& divisible_ok(s)
    &&& offset_range_ok(s)
    &&& replicas_ok(s)
    &&& protocol_recognized(s.kafka.security_protocol@)
    &&& tls_secret_ok(s)
    &&& sasl_secret_ok(s)
}

/// The message of the first check an invalid spec fails, in validation order.
pub open spec fn validation_error_view(s: KafkaPartitionRemapperSpec) -> Seq<char>
    recommends
        !spec_valid(s),
{
    if !bootstrap_ok(s) {
        "kafka.bootstrapServers cannot be empty"@
    } else if !physical_ok(s) {
        "mapping.physicalPartitions must be >= 1"@
    } else if !virtual_ge_physical(s) {
        "mapping.virtualPartitions must be >= mapping.physicalPartitions"@
    } else if !divisible_ok(s) {
        "mapping.virtualPartitions must be evenly divisible by mapping.physicalPartitions"@
    } else if !offset_range_ok(s) {
        "mapping.offsetRange must be >= 1048576 (2^20)"@
    } else if !replicas_ok(s) {
        "replicas must be >= 0"@
    } else if !protocol_recognized(s.kafka.security_protocol@) {
        "kafka.securityProtocol must be one of: [\"PLAINTEXT\", \"SSL\", \"SASL_PLAINTEXT\", \"SASL_SSL\"]"@
    } else if !tls_secret_ok(s) {
        "kafka.tlsSecret is required when using SSL or SASL_SSL protocol"@
    } else {
        "kafka.saslSecret is required when using SASL_PLAINTEXT or SASL_SSL protocol"@
    }
}

/// Validate a KafkaPartitionRemapper spec. Returns the first failed check as
/// a validation error; a valid spec passes with no side effects.
pub fn validate(remapper: &KafkaPartitionRemapper) -> (r: Result<(), Error>)
    ensures
        r is Ok <==> spec_valid(remapper.spec),
        !spec_valid(remapper.spec) ==> (r matches Err(Error::ValidationError(m)) && m@
            == validation_error_view(remapper.spec)),
{
    let spec = &remapper.spec;

    if spec.kafka.bootstrap_servers.len() == 0 {
        return Err(Error::ValidationError("kafka.bootstrapServers cannot be empty".to_owned()));
    }

    if spec.mapping.physical_partitions == 0 {
        return Err(Error::ValidationError("mapping.physicalPartitions must be >= 1".to_owned()));
    }

    if spec.mapping.virtual_partitions < spec.mapping.physical_partitions {
        return Err(Error::ValidationError(
            "mapping.virtualPartitions must be >= mapping.physicalPartitions".to_owned(),
        ));
    }

    if spec.mapping.virtual_partitions % spec.mapping.physical_partitions != 0 {
        return Err(Error::ValidationError(
            "mapping.virtualPartitions must be evenly divisible by mapping.physicalPartitions".to_owned(),
        ));
    }

    if spec.mapping.offset_range < 0x100000 {
        return Err(Error::ValidationError(
            "mapping.offsetRange must be >= 1048576 (2^20)".to_owned(),
        ));
    }

    if spec.replicas < 0 {
        return Err(Error::ValidationError("replicas must be >= 0".to_owned()));
    }

    let is_plaintext = str_eq(&spec.kafka.security_protocol, "PLAINTEXT");
    let is_ssl = str_eq(&spec.kafka.security_protocol, "SSL");
    let is_sasl_plaintext = str_eq(&spec.kafka.security_protocol, "SASL_PLAINTEXT");
    let is_sasl_ssl = str_eq(&spec.kafka.security_protocol, "SASL_SSL");

    if !is_plaintext && !is_ssl && !is_sasl_plaintext && !is_sasl_ssl {
        return Err(Error::ValidationError(
            "kafka.securityProtocol must be one of: [\"PLAINTEXT\", \"SSL\", \"SASL_PLAINTEXT\", \"SASL_SSL\"]".to_owned(),
        ));
    }

    if (is_ssl || is_sasl_ssl) && spec.kafka.tls_secret.is_none() {
        return Err(Error::ValidationError(
            "kafka.tlsSecret is required when using SSL or SASL_SSL protocol".to_owned(),
        ));
    }

    if (is_sasl_plaintext || is_sasl_ssl) && spec.kafka.sasl_secret.is_none() {
        return Err(Error::ValidationError(
            "kafka.saslSecret is required when using SASL_PLAINTEXT or SASL_SSL protocol".to_owned(),
        ));
    }

    Ok(())
}

/// Validation law for the partition mapping: when every other check passes,
/// validation succeeds exactly when the virtual partition count is at least
/// the physical one and evenly divisible by it.
pub proof fn lemma_partition_validation(s: KafkaPartitionRemapperSpec)
    requires
        bootstrap_ok(s),
        physical_ok(s),
        offset_range_ok(s),
        replicas_ok(s),
        protocol_recognized(s.kafka.security_protocol@),
        tls_secret_ok(s),
        sasl_secret_ok(s),
    ensures
        spec_valid(s) <==> (s.mapping.virtual_partitions >= s.mapping.physical_partitions
            && s.mapping.virtual_partitions % s.mapping.physical_partitions == 0),
{
}

/// Validation law for the offset range: with the earlier checks passing, an
/// offset range below 2 to the 20th power fails with the message naming the
/// offset constraint, and one at or above it passes that check.
pub proof fn lemma_offset_range_validation(s: KafkaPartitionRemapperSpec)
    requires
        bootstrap_ok(s),
        physical_ok(s),
        virtual_ge_physical(s),
        divisible_ok(s),
    ensures
        s.mapping.offset_range < min_offset_range() ==> !spec_valid(s) && validation_error_view(s)
            == "mapping.offsetRange must be >= 1048576 (2^20)"@,
        (s.mapping.offset_range >= min_offset_range() && replicas_ok(s) && protocol_recognized(
            s.kafka.security_protocol@,
        ) && tls_secret_ok(s) && sasl_secret_ok(s)) ==> spec_valid(s),
{
}

/// Validation law for the replica count: a negative count never validates,
/// whatever the rest of the spec holds; a zero count is itself never a
/// failure, and validity never depends on the suspend flag.
pub proof fn lemma_replicas_validation(s: KafkaPartitionRemapperSpec)
    ensures
        s.replicas < 0 ==> !spec_valid(s),
        (s.replicas == 0 && bootstrap_ok(s) && physical_ok(s) && virtual_ge_physical(s)
            && divisible_ok(s) && offset_range_ok(s) && protocol_recognized(
            s.kafka.security_protocol@,
        ) && tls_secret_ok(s) && sasl_secret_ok(s)) ==> spec_valid(s),
        spec_valid(s) == spec_valid(KafkaPartitionRemapperSpec { suspend: !s.suspend, ..s }),
{
}

/// Validation law for the security protocol: with the earlier checks passing,
/// a TLS-encrypting protocol without a TLS secret fails with the message
/// naming the TLS requirement; a SASL-authenticating protocol whose TLS
/// requirement is met but whose SASL secret is missing fails with the message
/// naming the SASL requirement; and every recognized protocol passes once the
/// secrets it requires are present.
pub proof fn lemma_security_validation(s: KafkaPartitionRemapperSpec)
    requires
        bootstrap_ok(s),
        physical_ok(s),
        virtual_ge_physical(s),
        divisible_ok(s),
        offset_range_ok(s),
        replicas_ok(s),
        protocol_recognized(s.kafka.security_protocol@),
    ensures
        (ssl_family(s.kafka.security_protocol@) && s.kafka.tls_secret is None) ==> !spec_valid(s)
            && validation_error_view(s)
            == "kafka.tlsSecret is required when using SSL or SASL_SSL protocol"@,
        (sasl_family(s.kafka.security_protocol@) && s.kafka.sasl_secret is None && tls_secret_ok(
            s,
        )) ==> !spec_valid(s) && validation_error_view(s)
            == "kafka.saslSecret is required when using SASL_PLAINTEXT or SASL_SSL protocol"@,
        (tls_secret_ok(s) && sasl_secret_ok(s)) ==> spec_valid(s),
{
}

} // verus!
