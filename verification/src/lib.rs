//! Token issuance and settlement for a store front: product series, affiliate
//! enrolment, the commission split of a sale, and the two chains of remote
//! calls (deploying the store's token, rewarding a buyer) with their
//! completion steps.

pub mod affiliate;
pub mod collections;
pub mod contract;
pub mod factory;
pub mod metadata;
pub mod near;
pub mod promise;
pub mod reward;
