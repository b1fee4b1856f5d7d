//! The tools an instance runs on: the `uv` Python manager, the embedded
//! PostgreSQL servers, and the Odoo sources.

pub mod odoo;
pub mod postgres;
pub mod uv;

use crate::sharing::share;
use postgres::PostgresManager;
use std::sync::Arc;
use uv::UvInstance;
use vstd::prelude::*;

verus! {

/// The `uv` installation and the PostgreSQL servers shared by all instances.
pub struct ComponentsManager {
    uv: Arc<UvInstance>,
    postgres: PostgresManager,
}

impl ComponentsManager {
    /// The `uv` installation.
    pub closed spec fn uv_view(&self) -> UvInstance {
        *self.uv
    }

    /// The PostgreSQL servers.
    pub closed spec fn postgres_view(&self) -> PostgresManager {
        self.postgres
    }

    /// Components with `uv` in `uv_path` and no PostgreSQL server yet.
    pub fn new(uv_path: String, postgres_path: String) -> (r: Self)
        ensures
            r.uv_view().dir() == uv_path@,
            r.postgres_view().servers() == Seq::<postgres::PostgresInstance>::empty(),
    {
        ComponentsManager {
            uv: Arc::new(UvInstance::new(uv_path)),
            postgres: PostgresManager::new(postgres_path),
        }
    }

    /// Another handle to the shared `uv` installation.
    pub fn uv(&self) -> (r: Arc<UvInstance>)
        ensures
            *r == self.uv_view(),
    {
        share(&self.uv)
    }

    /// The PostgreSQL servers.
    pub fn postgres(&self) -> (r: &PostgresManager)
        ensures
            *r == self.postgres_view(),
    {
        &self.postgres
    }

    /// The PostgreSQL servers, to be changed; the `uv` installation stays as it is.
    pub fn postgres_mut(&mut self) -> (r: &mut PostgresManager)
        ensures
            *r == old(self).postgres_view(),
            final(self).postgres_view() == *final(r),
            final(self).uv_view() == old(self).uv_view(),
    {
        &mut self.postgres
    }
}

} // verus!
