use vstd::prelude::*;

verus! {

/// A field that a request must carry and did not.
#[derive(Clone, Copy, Debug, PartialEq, Eq, Structural)]
pub enum MissingField {
    BillingAddress,
    FirstName,
    LastName,
    Line1,
    Zip,
    BrowserInfo,
    IpAddress,
}

impl MissingField {
    pub open spec fn spec_field_name(self) -> Seq<char> {
        match self {
            MissingField::BillingAddress => "billing.address"@,
            MissingField::FirstName => "address.first_name"@,
            MissingField::LastName => "address.last_name"@,
            MissingField::Line1 => "address.line1"@,
            MissingField::Zip => "address.zip"@,
            MissingField::BrowserInfo => "browser_info"@,
            MissingField::IpAddress => "browser_info.ip_address"@,
        }
    }

    /// The dotted path of the missing field, as reported to the caller.
    pub fn field_name(&self) -> (r: &'static str)
        ensures
            r@ == self.spec_field_name(),
    {
        match self {
            MissingField::BillingAddress => "billing.address",
            MissingField::FirstName => "address.first_name",
            MissingField::LastName => "address.last_name",
            MissingField::Line1 => "address.line1",
            MissingField::Zip => "address.zip",
            MissingField::BrowserInfo => "browser_info",
            MissingField::IpAddress => "browser_info.ip_address",
        }
    }
}

/// An operation that this gateway integration does not offer.
#[derive(Clone, Copy, Debug, PartialEq, Eq, Structural)]
pub enum Capability {
    PaymentMethods,
    ManualMultipleCaptureSync,
}

impl Capability {
    pub open spec fn spec_message(self) -> Seq<char> {
        match self {
            Capability::PaymentMethods => "Payment methods"@,
            Capability::ManualMultipleCaptureSync => "manual multiple capture sync"@,
        }
    }

    /// The name under which the missing capability is reported.
    pub fn message(&self) -> (r: &'static str)
        ensures
            r@ == self.spec_message(),
    {
        match self {
            Capability::PaymentMethods => "Payment methods",
            Capability::ManualMultipleCaptureSync => "manual multiple capture sync",
        }
    }
}

/// Errors raised while building gateway requests or reading gateway responses.
#[derive(Clone, Copy, Debug, PartialEq, Eq, Structural)]
pub enum ConnectorError {
    MissingRequiredField(MissingField),
    NotImplemented(Capability),
    FailedToObtainAuthType,
    RequestEncodingFailed,
    AmountConversionFailed,
}

} // verus!
