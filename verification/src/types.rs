use vstd::prelude::*;
use crate::query::{EcosystemRepositoryColumns, ProviderRepositoryColumns};

verus! {

/// Version of the registry schema, recorded in `registry_meta`.
pub const REGISTRY_SCHEMA_VERSION: u32 = 1;

/// Name under which the service reports itself.
pub const SERVICE_NAME: &'static str = "vapor-registry-server";

/// Body of every error reply.
pub struct ErrorResponse {
    pub error: String,
}

/// Counters reported by the status endpoint.
pub struct RegistryStatus {
    pub schema_version: u32,
    pub service: &'static str,
    pub ecosystems: i64,
    pub provider_accounts: i64,
    pub repositories: i64,
}

/// Builds the status record from the three table counts.
pub fn status(ecosystems: i64, provider_accounts: i64, repositories: i64) -> (s: RegistryStatus)
    ensures
        s.schema_version == REGISTRY_SCHEMA_VERSION,
        s.service@ == SERVICE_NAME@,
        s.ecosystems == ecosystems,
        s.provider_accounts == provider_accounts,
        s.repositories == repositories,
{
    RegistryStatus {
        schema_version: REGISTRY_SCHEMA_VERSION,
        service: SERVICE_NAME,
        ecosystems,
        provider_accounts,
        repositories,
    }
}

/// An ecosystem: a named set of top-level repositories.
pub struct Ecosystem {
    pub id: String,
    pub namespace: String,
    pub name: String,
    pub display_name: String,
}

/// A repository of an ecosystem, where it is checked out and how to get it.
pub struct EcosystemRepository {
    pub id: String,
    pub provider: String,
    pub owner: String,
    pub name: String,
    pub kind: String,
    pub checkout_path: String,
    pub web_url: String,
    pub clone_url: String,
}

impl EcosystemRepository {
    /// The record as the columns of the listing query.
    pub open spec fn columns(&self) -> EcosystemRepositoryColumns {
        (
            self.id@,
            self.provider@,
            self.owner@,
            self.name@,
            self.kind@,
            self.checkout_path@,
            self.web_url@,
            self.clone_url@,
        )
    }
}

/// The reply to an ecosystem lookup.
pub struct EcosystemResponse {
    pub schema_version: u32,
    pub ecosystem: Ecosystem,
    pub repositories: Vec<EcosystemRepository>,
}

/// An external provider account that owns Vapor resources.
pub struct ProviderAccount {
    pub id: String,
    pub provider: String,
    pub kind: String,
    pub login: String,
    pub canonical_url: String,
    pub verified: bool,
}

/// A repository of a provider account.
pub struct ProviderRepository {
    pub id: String,
    pub name: String,
    pub kind: String,
    pub web_url: String,
    pub clone_url: String,
}

impl ProviderRepository {
    /// The record as the columns of the listing query.
    pub open spec fn columns(&self) -> ProviderRepositoryColumns {
        (self.id@, self.name@, self.kind@, self.web_url@, self.clone_url@)
    }
}

/// The reply to a provider account lookup.
pub struct ProviderAccountResponse {
    pub schema_version: u32,
    pub account: ProviderAccount,
    pub repositories: Vec<ProviderRepository>,
}

} // verus!
