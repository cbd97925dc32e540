//! The description of an application.

use vstd::prelude::*;
use crate::encoding::{
    BinaryEncoder, DecodingLimits, EncodingResult, ReadStream, add_part_len, array_decoding,
    array_encodable, array_encoding, array_view, array_within, byte_len_array,
    lemma_array_round_trip, lemma_concat_assoc, lemma_extends_refl, read_array, write_array_part,
    write_part,
};
use crate::localized_text::{LocalizedText, LocalizedTextView};
use crate::service_types::ApplicationType;
use crate::status_codes::StatusCode;
use crate::string::UAString;

verus! {

/// Describes an application: a server, a client or both.
#[derive(Clone, Debug, PartialEq, Eq)]
pub struct ApplicationDescription {
    /// The URI that identifies the application instance.
    pub application_uri: UAString,
    /// The URI that identifies the product.
    pub product_uri: UAString,
    /// A name of the application for people.
    pub application_name: LocalizedText,
    /// The role that the application plays.
    pub application_type: ApplicationType,
    /// The URI of the gateway through which the application is reached, if it is reached through
    /// one.
    pub gateway_server_uri: UAString,
    /// The URI of the discovery profile that the discovery URLs support.
    pub discovery_profile_uri: UAString,
    /// The URLs of the discovery endpoints of the application.
    pub discovery_urls: Option<Vec<UAString>>,
}

/// The value of a `ApplicationDescription`.
pub struct ApplicationDescriptionView {
    pub application_uri: Option<Seq<char>>,
    pub product_uri: Option<Seq<char>>,
    pub application_name: LocalizedTextView,
    pub application_type: ApplicationType,
    pub gateway_server_uri: Option<Seq<char>>,
    pub discovery_profile_uri: Option<Seq<char>>,
    pub discovery_urls: Option<Seq<Option<Seq<char>>>>,
}

impl View for ApplicationDescription {
    type V = ApplicationDescriptionView;

    open spec fn view(&self) -> ApplicationDescriptionView {
        ApplicationDescriptionView {
            application_uri: self.application_uri@,
            product_uri: self.product_uri@,
            application_name: self.application_name@,
            application_type: self.application_type,
            gateway_server_uri: self.gateway_server_uri@,
            discovery_profile_uri: self.discovery_profile_uri@,
            discovery_urls: array_view(self.discovery_urls),
        }
    }
}

/// Wire form of a `ApplicationDescription`: its fields in the order of their declaration.
pub open spec fn application_description_encoding(v: ApplicationDescriptionView) -> Seq<u8> {
    UAString::encoding(v.application_uri) + UAString::encoding(v.product_uri)
        + LocalizedText::encoding(v.application_name)
        + ApplicationType::encoding(v.application_type)
        + UAString::encoding(v.gateway_server_uri) + UAString::encoding(v.discovery_profile_uri)
        + array_encoding::<UAString>(v.discovery_urls)
}

/// A `ApplicationDescription` off the front of `s`: its fields, one behind the other.
#[verifier::opaque]
pub open spec fn application_description_decoding(s: Seq<u8>, limits: DecodingLimits) -> Result<
    (ApplicationDescriptionView, Seq<u8>),
    StatusCode,
> {
    match UAString::decoding(s, limits) {
        Err(e) => Err(e),
        Ok((application_uri, s)) =>
            match UAString::decoding(s, limits) {
                Err(e) => Err(e),
                Ok((product_uri, s)) =>
                    match LocalizedText::decoding(s, limits) {
                        Err(e) => Err(e),
                        Ok((application_name, s)) =>
                            match ApplicationType::decoding(s, limits) {
                                Err(e) => Err(e),
                                Ok((application_type, s)) =>
                                    match UAString::decoding(s, limits) {
                                        Err(e) => Err(e),
                                        Ok((gateway_server_uri, s)) =>
                                            match UAString::decoding(s, limits) {
                                                Err(e) => Err(e),
                                                Ok((discovery_profile_uri, s)) =>
                                                    match array_decoding::<UAString>(s, limits) {
                                                        Err(e) => Err(e),
                                                        Ok((discovery_urls, s)) =>
                                                            Ok((
                                                                ApplicationDescriptionView {
                                                                    application_uri,
                                                                    product_uri,
                                                                    application_name,
                                                                    application_type,
                                                                    gateway_server_uri,
                                                                    discovery_profile_uri,
                                                                    discovery_urls,
                                                                },
                                                                s,
                                                            )),
                                                    },
                                            },
                                    },
                            },
                    },
            },
    }
}

impl BinaryEncoder for ApplicationDescription {
    open spec fn encoding(v: ApplicationDescriptionView) -> Seq<u8> {
        application_description_encoding(v)
    }

    open spec fn encodable(v: ApplicationDescriptionView) -> bool {
        &&& UAString::encodable(v.application_uri)
        &&& UAString::encodable(v.product_uri)
        &&& LocalizedText::encodable(v.application_name)
        &&& ApplicationType::encodable(v.application_type)
        &&& UAString::encodable(v.gateway_server_uri)
        &&& UAString::encodable(v.discovery_profile_uri)
        &&& array_encodable::<UAString>(v.discovery_urls)
    }

    open spec fn within(v: ApplicationDescriptionView, limits: DecodingLimits) -> bool {
        &&& UAString::within(v.application_uri, limits)
        &&& UAString::within(v.product_uri, limits)
        &&& LocalizedText::within(v.application_name, limits)
        &&& ApplicationType::within(v.application_type, limits)
        &&& UAString::within(v.gateway_server_uri, limits)
        &&& UAString::within(v.discovery_profile_uri, limits)
        &&& array_within::<UAString>(v.discovery_urls, limits)
    }

    open spec fn decoding(s: Seq<u8>, limits: DecodingLimits) -> Result<
        (ApplicationDescriptionView, Seq<u8>),
        StatusCode,
    > {
        application_description_decoding(s, limits)
    }

    proof fn lemma_round_trip(v: ApplicationDescriptionView, rest: Seq<u8>, limits: DecodingLimits) {
        reveal(application_description_decoding);
        let p0 = UAString::encoding(v.application_uri);
        let p1 = UAString::encoding(v.product_uri);
        let p2 = LocalizedText::encoding(v.application_name);
        let p3 = ApplicationType::encoding(v.application_type);
        let p4 = UAString::encoding(v.gateway_server_uri);
        let p5 = UAString::encoding(v.discovery_profile_uri);
        let p6 = array_encoding::<UAString>(v.discovery_urls);
        let r6 = p6 + rest;
        let r5 = p5 + r6;
        let r4 = p4 + r5;
        let r3 = p3 + r4;
        let r2 = p2 + r3;
        let r1 = p1 + r2;
        lemma_concat_assoc(p0 + p1 + p2 + p3 + p4 + p5, p6, rest);
        lemma_concat_assoc(p0 + p1 + p2 + p3 + p4, p5, r6);
        lemma_concat_assoc(p0 + p1 + p2 + p3, p4, r5);
        lemma_concat_assoc(p0 + p1 + p2, p3, r4);
        lemma_concat_assoc(p0 + p1, p2, r3);
        lemma_concat_assoc(p0, p1, r2);
        UAString::lemma_round_trip(v.application_uri, r1, limits);
        UAString::lemma_round_trip(v.product_uri, r2, limits);
        LocalizedText::lemma_round_trip(v.application_name, r3, limits);
        ApplicationType::lemma_round_trip(v.application_type, r4, limits);
        UAString::lemma_round_trip(v.gateway_server_uri, r5, limits);
        UAString::lemma_round_trip(v.discovery_profile_uri, r6, limits);
        lemma_array_round_trip::<UAString>(v.discovery_urls, rest, limits);
    }

    fn byte_len(&self) -> (r: usize) {
        let ghost v = self@;
        let ghost e0 = UAString::encoding(v.application_uri);
        let ghost e1 = e0 + UAString::encoding(v.product_uri);
        let ghost e2 = e1 + LocalizedText::encoding(v.application_name);
        let ghost e3 = e2 + ApplicationType::encoding(v.application_type);
        let ghost e4 = e3 + UAString::encoding(v.gateway_server_uri);
        let ghost e5 = e4 + UAString::encoding(v.discovery_profile_uri);
        let ghost e6 = e5 + array_encoding::<UAString>(v.discovery_urls);
        let mut size: usize = self.application_uri.byte_len();
        size = add_part_len(
            size,
            self.product_uri.byte_len(),
            Ghost(e0),
            Ghost(UAString::encoding(v.product_uri)),
        );
        size = add_part_len(
            size,
            self.application_name.byte_len(),
            Ghost(e1),
            Ghost(LocalizedText::encoding(v.application_name)),
        );
        size = add_part_len(
            size,
            self.application_type.byte_len(),
            Ghost(e2),
            Ghost(ApplicationType::encoding(v.application_type)),
        );
        size = add_part_len(
            size,
            self.gateway_server_uri.byte_len(),
            Ghost(e3),
            Ghost(UAString::encoding(v.gateway_server_uri)),
        );
        size = add_part_len(
            size,
            self.discovery_profile_uri.byte_len(),
            Ghost(e4),
            Ghost(UAString::encoding(v.discovery_profile_uri)),
        );
        size = add_part_len(
            size,
            byte_len_array(&self.discovery_urls),
            Ghost(e5),
            Ghost(array_encoding::<UAString>(v.discovery_urls)),
        );
        size
    }

    fn encode(&self, stream: &mut Vec<u8>) -> (r: EncodingResult<usize>) {
        let start = stream.len();
        let ghost o = stream@;
        let ghost v = self@;
        proof {
            lemma_extends_refl(o);
        }
        write_part(stream, &self.application_uri, Ghost(o))?;
        write_part(stream, &self.product_uri, Ghost(o))?;
        write_part(stream, &self.application_name, Ghost(o))?;
        write_part(stream, &self.application_type, Ghost(o))?;
        write_part(stream, &self.gateway_server_uri, Ghost(o))?;
        write_part(stream, &self.discovery_profile_uri, Ghost(o))?;
        write_array_part(stream, &self.discovery_urls, Ghost(o))?;
        proof {
            let p0 = UAString::encoding(v.application_uri);
            let p1 = UAString::encoding(v.product_uri);
            let p2 = LocalizedText::encoding(v.application_name);
            let p3 = ApplicationType::encoding(v.application_type);
            let p4 = UAString::encoding(v.gateway_server_uri);
            let p5 = UAString::encoding(v.discovery_profile_uri);
            let p6 = array_encoding::<UAString>(v.discovery_urls);
            lemma_concat_assoc(o, p0, p1);
            lemma_concat_assoc(o, p0 + p1, p2);
            lemma_concat_assoc(o, p0 + p1 + p2, p3);
            lemma_concat_assoc(o, p0 + p1 + p2 + p3, p4);
            lemma_concat_assoc(o, p0 + p1 + p2 + p3 + p4, p5);
            lemma_concat_assoc(o, p0 + p1 + p2 + p3 + p4 + p5, p6);
        }
        Ok(stream.len() - start)
    }

    fn decode(stream: &mut ReadStream, limits: &DecodingLimits) -> (r: EncodingResult<Self>) {
        proof {
            reveal(application_description_decoding);
        }
        let application_uri = UAString::decode(stream, limits)?;
        let product_uri = UAString::decode(stream, limits)?;
        let application_name = LocalizedText::decode(stream, limits)?;
        let application_type = ApplicationType::decode(stream, limits)?;
        let gateway_server_uri = UAString::decode(stream, limits)?;
        let discovery_profile_uri = UAString::decode(stream, limits)?;
        let discovery_urls: Option<Vec<UAString>> = read_array(stream, limits)?;
        Ok(
            ApplicationDescription {
                application_uri,
                product_uri,
                application_name,
                application_type,
                gateway_server_uri,
                discovery_profile_uri,
                discovery_urls,
            },
        )
    }
}

} // verus!
