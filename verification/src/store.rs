//! The declarative store as this service sees it: the requests it is sent, the
//! replies it gives, and a model of a store that serves one caller faithfully.
//!
//! Nothing here talks to a store. A caller sends each [`StoreRequest`] by its
//! own means and hands the [`StoreReply`] back.
use crate::adrasset::{AssetSpec, AssetSpecView};
use crate::crontab::{CronTabSpec, CronTabSpecView};
use vstd::prelude::*;

verus! {

/// The HTTP status with which a store says that it has no such resource.
pub const STATUS_NOT_FOUND: u16 = 404;

/// The HTTP status with which a store refuses to create what it already has.
pub const STATUS_CONFLICT: u16 = 409;

/// Why a request to the store failed.
#[derive(Debug, Clone)]
pub enum StoreError {
    /// The store could not be reached.
    Transport,
    /// The store refused the request.
    Api { code: u16, message: String },
    /// The store has no such resource.
    NotFound,
}

/// The mathematical content of a [`StoreError`].
pub ghost enum StoreErrorView {
    Transport,
    Api { code: u16, message: Seq<char> },
    NotFound,
}

impl View for StoreError {
    type V = StoreErrorView;

    open spec fn view(&self) -> StoreErrorView {
        match self {
            StoreError::Transport => StoreErrorView::Transport,
            StoreError::Api { code, message } => StoreErrorView::Api {
                code: *code,
                message: message@,
            },
            StoreError::NotFound => StoreErrorView::NotFound,
        }
    }
}

/// The error that a store's refusal with the status `code` stands for.
pub open spec fn refusal(code: u16, message: Seq<char>) -> StoreErrorView {
    if code == STATUS_NOT_FOUND {
        StoreErrorView::NotFound
    } else {
        StoreErrorView::Api { code, message }
    }
}

impl StoreError {
    /// The error for a request that the store refused with the status `code`.
    pub fn from_status(code: u16, message: String) -> (r: StoreError)
        ensures
            r@ == refusal(code, message@),
    {
        if code == STATUS_NOT_FOUND {
            StoreError::NotFound
        } else {
            StoreError::Api { code, message }
        }
    }
}

/// One request to the store.
#[derive(Debug, Clone)]
pub enum StoreRequest {
    FindCronTab { name: String, namespace: String },
    CreateCronTab { job: CronTabSpec, name: String, namespace: String },
    UpdateCronTab { job: CronTabSpec, name: String, namespace: String },
    FindAsset { name: String, namespace: String },
    CreateAsset { asset: AssetSpec, name: String, namespace: String },
}

/// The mathematical content of a [`StoreRequest`].
pub ghost enum StoreRequestView {
    FindCronTab { name: Seq<char>, namespace: Seq<char> },
    CreateCronTab { job: CronTabSpecView, name: Seq<char>, namespace: Seq<char> },
    UpdateCronTab { job: CronTabSpecView, name: Seq<char>, namespace: Seq<char> },
    FindAsset { name: Seq<char>, namespace: Seq<char> },
    CreateAsset { asset: AssetSpecView, name: Seq<char>, namespace: Seq<char> },
}

impl View for StoreRequest {
    type V = StoreRequestView;

    open spec fn view(&self) -> StoreRequestView {
        match self {
            StoreRequest::FindCronTab { name, namespace } => StoreRequestView::FindCronTab {
                name: name@,
                namespace: namespace@,
            },
            StoreRequest::CreateCronTab { job, name, namespace } => StoreRequestView::CreateCronTab {
                job: job@,
                name: name@,
                namespace: namespace@,
            },
            StoreRequest::UpdateCronTab { job, name, namespace } => StoreRequestView::UpdateCronTab {
                job: job@,
                name: name@,
                namespace: namespace@,
            },
            StoreRequest::FindAsset { name, namespace } => StoreRequestView::FindAsset {
                name: name@,
                namespace: namespace@,
            },
            StoreRequest::CreateAsset { asset, name, namespace } => StoreRequestView::CreateAsset {
                asset: asset@,
                name: name@,
                namespace: namespace@,
            },
        }
    }
}

/// What the store answered.
#[derive(Debug, Clone)]
pub enum StoreReply {
    /// The scheduled job that was looked up.
    CronTab(CronTabSpec),
    /// The asset that was looked up.
    Asset(AssetSpec),
    /// The resource was created or updated.
    Done,
    /// The request failed.
    Failed(StoreError),
}

/// The mathematical content of a [`StoreReply`].
pub ghost enum StoreReplyView {
    CronTab(CronTabSpecView),
    Asset(AssetSpecView),
    Done,
    Failed(StoreErrorView),
}

impl View for StoreReply {
    type V = StoreReplyView;

    open spec fn view(&self) -> StoreReplyView {
        match self {
            StoreReply::CronTab(spec) => StoreReplyView::CronTab(spec@),
            StoreReply::Asset(spec) => StoreReplyView::Asset(spec@),
            StoreReply::Done => StoreReplyView::Done,
            StoreReply::Failed(error) => StoreReplyView::Failed(error@),
        }
    }
}

/// What identifies a resource of one kind: its namespace and its name.
pub ghost struct ResourceKey {
    pub namespace: Seq<char>,
    pub name: Seq<char>,
}

/// A store that holds scheduled jobs and assets, answers each request
/// truthfully and fails for no reason of its own.
pub ghost struct StoreModel {
    pub crontabs: Map<ResourceKey, CronTabSpecView>,
    pub assets: Map<ResourceKey, AssetSpecView>,
}

impl StoreModel {
    /// What the store answers to `request`.
    pub open spec fn answer(self, request: StoreRequestView) -> StoreReplyView {
        match request {
            StoreRequestView::FindCronTab { name, namespace } => {
                let key = ResourceKey { namespace, name };
                if self.crontabs.dom().contains(key) {
                    StoreReplyView::CronTab(self.crontabs[key])
                } else {
                    StoreReplyView::Failed(StoreErrorView::NotFound)
                }
            },
            StoreRequestView::CreateCronTab { job, name, namespace } => {
                if self.crontabs.dom().contains(ResourceKey { namespace, name }) {
                    StoreReplyView::Failed(
                        StoreErrorView::Api { code: STATUS_CONFLICT, message: Seq::empty() },
                    )
                } else {
                    StoreReplyView::Done
                }
            },
            StoreRequestView::UpdateCronTab { job, name, namespace } => {
                if self.crontabs.dom().contains(ResourceKey { namespace, name }) {
                    StoreReplyView::Done
                } else {
                    StoreReplyView::Failed(StoreErrorView::NotFound)
                }
            },
            StoreRequestView::FindAsset { name, namespace } => {
                let key = ResourceKey { namespace, name };
                if self.assets.dom().contains(key) {
                    StoreReplyView::Asset(self.assets[key])
                } else {
                    StoreReplyView::Failed(StoreErrorView::NotFound)
                }
            },
            StoreRequestView::CreateAsset { asset, name, namespace } => {
                if self.assets.dom().contains(ResourceKey { namespace, name }) {
                    StoreReplyView::Failed(
                        StoreErrorView::Api { code: STATUS_CONFLICT, message: Seq::empty() },
                    )
                } else {
                    StoreReplyView::Done
                }
            },
        }
    }

    /// The store after it has served `request`.
    pub open spec fn after(self, request: StoreRequestView) -> StoreModel {
        match request {
            StoreRequestView::CreateCronTab { job, name, namespace } => {
                let key = ResourceKey { namespace, name };
                if self.crontabs.dom().contains(key) {
                    self
                } else {
                    StoreModel { crontabs: self.crontabs.insert(key, job), ..self }
                }
            },
            StoreRequestView::UpdateCronTab { job, name, namespace } => {
                let key = ResourceKey { namespace, name };
                if self.crontabs.dom().contains(key) {
                    StoreModel { crontabs: self.crontabs.insert(key, job), ..self }
                } else {
                    self
                }
            },
            StoreRequestView::CreateAsset { asset, name, namespace } => {
                let key = ResourceKey { namespace, name };
                if self.assets.dom().contains(key) {
                    self
                } else {
                    StoreModel { assets: self.assets.insert(key, asset), ..self }
                }
            },
            _ => self,
        }
    }
}

} // verus!
