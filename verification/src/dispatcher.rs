//! The dispatcher: which adapter serves a platform, and the one step from
//! "not started" to "ready" after which the adapter never changes.

use vstd::prelude::*;

verus! {

/// The platform that the process runs on.
#[derive(Debug, Clone, Copy, PartialEq, Eq, Structural)]
pub enum Platform {
    Android,
    Ios,
    MacOs,
    Windows,
    Linux,
}

/// The adapters: for the mobile stores, for the Mac App Store, for the
/// Windows Store, and for a desktop without a store.
#[derive(Debug, Clone, Copy, PartialEq, Eq, Structural)]
pub enum Adapter {
    Mobile,
    MacOs,
    Windows,
    Desktop,
}

/// The adapter that serves a platform.
pub open spec fn adapter_of(platform: Platform) -> Adapter {
    match platform {
        Platform::Android => Adapter::Mobile,
        Platform::Ios => Adapter::Mobile,
        Platform::MacOs => Adapter::MacOs,
        Platform::Windows => Adapter::Windows,
        Platform::Linux => Adapter::Desktop,
    }
}

/// The seven operations that every adapter offers.
#[derive(Debug, Clone, Copy, PartialEq, Eq, Structural)]
pub enum Operation {
    Initialize,
    GetProducts,
    Purchase,
    RestorePurchases,
    GetPurchaseHistory,
    AcknowledgePurchase,
    GetProductStatus,
}

/// The name by which an operation is called on the native side of a mobile
/// store.
pub open spec fn native_name_of(operation: Operation) -> Seq<char> {
    match operation {
        Operation::Initialize => "initialize"@,
        Operation::GetProducts => "getProducts"@,
        Operation::Purchase => "purchase"@,
        Operation::RestorePurchases => "restorePurchases"@,
        Operation::GetPurchaseHistory => "getPurchaseHistory"@,
        Operation::AcknowledgePurchase => "acknowledgePurchase"@,
        Operation::GetProductStatus => "getProductStatus"@,
    }
}

impl Operation {
    /// The name by which this operation is called on the native side of a
    /// mobile store.
    pub fn native_name(&self) -> (r: &'static str)
        ensures
            r@ == native_name_of(*self),
    {
        match self {
            Operation::Initialize => "initialize",
            Operation::GetProducts => "getProducts",
            Operation::Purchase => "purchase",
            Operation::RestorePurchases => "restorePurchases",
            Operation::GetPurchaseHistory => "getPurchaseHistory",
            Operation::AcknowledgePurchase => "acknowledgePurchase",
            Operation::GetProductStatus => "getProductStatus",
        }
    }
}

impl Adapter {
    /// The adapter that serves a platform.
    pub fn for_platform(platform: Platform) -> (r: Adapter)
        ensures
            r == adapter_of(platform),
    {
        match platform {
            Platform::Android => Adapter::Mobile,
            Platform::Ios => Adapter::Mobile,
            Platform::MacOs => Adapter::MacOs,
            Platform::Windows => Adapter::Windows,
            Platform::Linux => Adapter::Desktop,
        }
    }
}

/// The dispatcher of a process. It starts without an adapter, is given one
/// when the process starts, and keeps it.
#[derive(Debug, Clone, Copy, PartialEq, Eq, Structural)]
pub enum Dispatcher {
    Uninitialized,
    Ready(Adapter),
}

/// The dispatcher after a start: one that has not started gets the
/// platform's adapter, and one that has started stays as it is.
pub open spec fn started(dispatcher: Dispatcher, platform: Platform) -> Dispatcher {
    match dispatcher {
        Dispatcher::Uninitialized => Dispatcher::Ready(adapter_of(platform)),
        Dispatcher::Ready(_) => dispatcher,
    }
}

impl Dispatcher {
    /// A dispatcher that has not started.
    pub fn new() -> (r: Dispatcher)
        ensures
            r == Dispatcher::Uninitialized,
    {
        Dispatcher::Uninitialized
    }

    /// Whether operations can be dispatched.
    pub fn is_ready(&self) -> (r: bool)
        ensures
            r == (*self is Ready),
    {
        matches!(self, Dispatcher::Ready(_))
    }

    /// Starts the dispatcher on a platform. A dispatcher that has started
    /// stays as it is: the adapter is chosen once.
    pub fn start(&mut self, platform: Platform)
        ensures
            *final(self) == started(*old(self), platform),
    {
        if let Dispatcher::Uninitialized = self {
            *self = Dispatcher::Ready(Adapter::for_platform(platform));
        }
    }

    /// The adapter in use; none before the start.
    pub fn adapter(&self) -> (r: Option<Adapter>)
        ensures
            r == (match *self {
                Dispatcher::Uninitialized => None::<Adapter>,
                Dispatcher::Ready(adapter) => Some(adapter),
            }),
    {
        match self {
            Dispatcher::Uninitialized => None,
            Dispatcher::Ready(adapter) => Some(*adapter),
        }
    }
}

/// Once started, a dispatcher is ready, and starting it again changes
/// nothing, whatever platform is named.
pub proof fn lemma_adapter_is_chosen_once(first: Platform, second: Platform)
    ensures
        started(started(Dispatcher::Uninitialized, first), second) == Dispatcher::Ready(
            adapter_of(first),
        ),
{
}

} // verus!
