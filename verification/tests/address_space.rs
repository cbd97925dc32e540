use opcua::address_space::access_level::{AccessLevel, EventNotifier, UserAccessLevel};
use opcua::address_space::address_space::AddressSpace;
use opcua::address_space::data_type::DataType;
use opcua::address_space::node::NodeType;
use opcua::address_space::object::{Object, ObjectBuilder};
use opcua::address_space::reference_type::ReferenceType;
use opcua::address_space::references::{Reference, ReferenceDirection};
use opcua::address_space::variable::{Variable, VariableBuilder};
use opcua::address_space::variable_type::VariableType;
use opcua::address_space::view::{ViewBuilder, ViewNode};
use opcua::attribute::AttributeId;
use opcua::attribute_masks::{AttributesMask, WriteMask};
use opcua::byte_string::ByteString;
use opcua::date_time::DateTime;
use opcua::localized_text::LocalizedText;
use opcua::node_id::NodeId;
use opcua::node_ids::{DataTypeId, ObjectTypeId, ReferenceTypeId};
use opcua::qualified_name::QualifiedName;
use opcua::service_types::data_type_attributes::DataTypeAttributes;
use opcua::service_types::object_attributes::ObjectAttributes;
use opcua::service_types::reference_type_attributes::ReferenceTypeAttributes;
use opcua::service_types::variable_attributes::VariableAttributes;
use opcua::service_types::variable_type_attributes::VariableTypeAttributes;
use opcua::service_types::view_attributes::ViewAttributes;
use opcua::service_types::NodeClass;
use opcua::status_codes::StatusCode;
use opcua::string::UAString;
use opcua::variant::{DataValue, MultiDimensionArray, Variant};

fn name(text: &str) -> QualifiedName {
    QualifiedName::new(0, text)
}

fn text(text: &str) -> LocalizedText {
    LocalizedText::new("", text)
}

fn objects_folder() -> NodeId {
    NodeId::new_numeric(0, 85)
}

fn variable_attributes(mask: u32) -> VariableAttributes {
    VariableAttributes {
        specified_attributes: mask,
        display_name: text("Speed"),
        description: text("How fast it goes"),
        write_mask: 0xffff_ffff,
        user_write_mask: WriteMask::VALUE_FOR_VARIABLE_TYPE,
        value: Variant::Int32(77),
        data_type: DataTypeId::Int32.as_node_id(),
        value_rank: -1,
        array_dimensions: Some(vec![4, 5]),
        access_level: 0xff,
        user_access_level: 0xff,
        minimum_sampling_interval: 0x4059_0000_0000_0000,
        historizing: true,
    }
}

const VARIABLE_MANDATORY: u32 = AttributesMask::DISPLAY_NAME
    | AttributesMask::ACCESS_LEVEL
    | AttributesMask::USER_ACCESS_LEVEL
    | AttributesMask::DATA_TYPE
    | AttributesMask::HISTORIZING
    | AttributesMask::VALUE
    | AttributesMask::VALUE_RANK;

#[test]
fn access_level_masks_keep_the_bits_with_a_meaning() {
    assert_eq!(AccessLevel::from_bits(0x80), None);
    assert_eq!(AccessLevel::from_bits(3).map(|m| m.bits()), Some(3));
    assert_eq!(AccessLevel::from_bits_truncate(0xff).bits(), 0x7f);
    assert_eq!(UserAccessLevel::from_bits(16), None);
    assert_eq!(UserAccessLevel::from_bits_truncate(0xff).bits(), 0x6f);
    assert_eq!(EventNotifier::from_bits(2), None);
    assert_eq!(EventNotifier::from_bits_truncate(0xff).bits(), 0x0d);
    assert!(AccessLevel::empty().is_empty());

    let mut level = AccessLevel::from_bits_truncate(AccessLevel::CURRENT_READ);
    assert!(level.contains(AccessLevel::CURRENT_READ));
    assert!(!level.contains(AccessLevel::CURRENT_WRITE));
    level.insert(AccessLevel::CURRENT_WRITE | AccessLevel::HISTORY_READ);
    assert_eq!(level.bits(), 7);
    assert!(level.contains(AccessLevel::CURRENT_READ | AccessLevel::CURRENT_WRITE));
    level.remove(AccessLevel::CURRENT_READ);
    assert_eq!(level.bits(), 6);
    assert!(!level.contains(AccessLevel::CURRENT_READ | AccessLevel::CURRENT_WRITE));
}

#[test]
fn attribute_ids_have_their_numbers() {
    assert_eq!(AttributeId::NodeId.value(), 1);
    assert_eq!(AttributeId::Value.value(), 13);
    assert_eq!(AttributeId::UserExecutable.value(), 22);
    assert_eq!(AttributeId::from_u32(13), Some(AttributeId::Value));
    assert_eq!(AttributeId::from_u32(17), Some(AttributeId::AccessLevel));
    assert_eq!(AttributeId::from_u32(0), None);
    assert_eq!(AttributeId::from_u32(23), None);
}

#[test]
fn built_in_node_ids_have_their_numbers() {
    assert_eq!(ReferenceTypeId::Organizes.value(), 35);
    assert_eq!(ReferenceTypeId::HasTypeDefinition.as_node_id(), NodeId::new_numeric(0, 40));
    assert_eq!(ReferenceTypeId::from_u32(47), Some(ReferenceTypeId::HasComponent));
    assert_eq!(ReferenceTypeId::from_u32(30), None);
    assert_eq!(ObjectTypeId::FolderType.value(), 61);
    assert_eq!(ObjectTypeId::from_u32(58), Some(ObjectTypeId::BaseObjectType));
    assert_eq!(ObjectTypeId::from_u32(59), None);
    assert_eq!(DataTypeId::Boolean.value(), 1);
    assert_eq!(DataTypeId::Int32.as_node_id(), NodeId::new_numeric(0, 6));
    assert_eq!(DataTypeId::from_u32(6), Some(DataTypeId::Int32));
    assert_eq!(DataTypeId::from_u32(0), None);
}

#[test]
fn values_are_the_same_where_they_hold_the_same() {
    assert!(NodeId::new_numeric(2, 7).is_same(&NodeId::new_numeric(2, 7)));
    assert!(!NodeId::new_numeric(2, 7).is_same(&NodeId::new_numeric(3, 7)));
    assert!(!NodeId::new_numeric(2, 7).is_same(&NodeId::new_numeric(2, 8)));
    assert!(NodeId::new_string(2, "abort").is_same(&NodeId::new_string(2, "abort")));
    assert!(!NodeId::new_string(2, "abort").is_same(&NodeId::new_string(2, "abor")));
    assert!(!NodeId::new_string(0, "7").is_same(&NodeId::new_numeric(0, 7)));
    assert!(UAString::from_str("a").is_same(&UAString::from_str("a")));
    assert!(!UAString::from_str("").is_same(&UAString::null()));
    assert!(UAString::null().is_same(&UAString::null()));
    assert!(ByteString::from_bytes(&[1, 2]).is_same(&ByteString::from_bytes(&[1, 2])));
    assert!(!ByteString::from_bytes(&[1, 2]).is_same(&ByteString::from_bytes(&[1, 3])));
    assert!(!ByteString::from_bytes(&[1, 2]).is_same(&ByteString::from_bytes(&[1])));
    assert!(!ByteString::from_bytes(&[]).is_same(&ByteString::null()));
}

#[test]
fn a_variant_tells_its_data_type() {
    assert_eq!(Variant::Empty.data_type(), None);
    assert_eq!(Variant::Boolean(true).data_type(), Some(DataTypeId::Boolean));
    assert_eq!(Variant::Double(0).data_type(), Some(DataTypeId::Double));
    assert_eq!(
        Variant::String(UAString::from_str("x")).data_type(),
        Some(DataTypeId::String)
    );
    assert_eq!(Variant::Array(vec![]).data_type(), None);
    assert_eq!(
        Variant::Array(vec![Variant::Int16(1), Variant::Int16(2)]).data_type(),
        Some(DataTypeId::Int16)
    );
}

#[test]
fn numbers_go_into_a_variant_and_come_back() {
    let v = Variant::from_u32_array(&[3, 1, 2]);
    assert_eq!(
        v,
        Variant::Array(vec![Variant::UInt32(3), Variant::UInt32(1), Variant::UInt32(2)])
    );
    assert_eq!(v.to_u32_array(), Some(vec![3, 1, 2]));
    assert_eq!(Variant::from_u32_array(&[]).to_u32_array(), Some(vec![]));
    assert_eq!(Variant::UInt32(3).to_u32_array(), None);
    assert_eq!(
        Variant::Array(vec![Variant::UInt32(3), Variant::Int32(1)]).to_u32_array(),
        None
    );
}

#[test]
fn a_data_value_is_stamped_as_asked() {
    let only = DataValue::value_only(Variant::Byte(9));
    assert_eq!(*only.value, Variant::Byte(9));
    assert_eq!(only.status, StatusCode::Good);
    assert_eq!(only.source_timestamp, DateTime::epoch());
    assert_eq!(only.server_timestamp, DateTime::epoch());
    assert_eq!(only.source_pico_seconds, 0);
    assert_eq!(only.server_pico_seconds, 0);

    let at = DateTime::ymd_hms(2020, 2, 29, 12, 0, 1);
    let stamped = DataValue::new_at(Variant::Byte(9), &at);
    assert_eq!(*stamped.value, Variant::Byte(9));
    assert_eq!(stamped.source_timestamp, at);
    assert_eq!(stamped.server_timestamp, at);
    assert_eq!(stamped.status, StatusCode::Good);

    let now = DataValue::new(Variant::Byte(9));
    assert_eq!(now.source_timestamp, now.server_timestamp);
    assert!(now.source_timestamp.ticks() > DateTime::ymd(2020, 1, 1).ticks());
}

#[test]
fn a_new_variable_infers_type_and_rank_from_its_value() {
    let node_id = NodeId::new_numeric(2, 1);
    let v = Variable::new(&node_id, name("v1"), text("v1"), Variant::Int32(5));
    assert_eq!(v.node_class(), NodeClass::Variable);
    assert_eq!(v.node_id(), node_id);
    assert_eq!(v.browse_name(), name("v1"));
    assert_eq!(v.display_name(), text("v1"));
    assert_eq!(v.description(), None);
    assert_eq!(v.write_mask(), None);
    assert_eq!(v.user_write_mask(), None);
    assert_eq!(v.data_type(), NodeId::new_numeric(0, 6));
    assert_eq!(v.value_rank(), -1);
    assert_eq!(v.array_dimensions(), None);
    assert!(!v.historizing());
    assert_eq!(v.minimum_sampling_interval(), None);
    assert_eq!(v.access_level().bits(), AccessLevel::CURRENT_READ);
    assert_eq!(v.user_access_level().bits(), UserAccessLevel::CURRENT_READ);
    assert!(v.is_readable());
    assert!(!v.is_writable());
    assert!(v.is_user_readable());
    assert!(!v.is_user_writable());
    assert!(v.is_valid());
    let value = v.value();
    assert_eq!(*value.value, Variant::Int32(5));
    assert_eq!(value.status, StatusCode::Good);
    assert_eq!(value.source_timestamp, value.server_timestamp);
    assert!(value.source_timestamp.ticks() > DateTime::ymd(2020, 1, 1).ticks());
}

#[test]
fn an_array_value_gives_the_variable_its_dimensions() {
    let node_id = NodeId::new_numeric(2, 1);
    let array = Variant::Array(vec![Variant::Byte(1), Variant::Byte(2), Variant::Byte(3)]);
    let v = Variable::new(&node_id, name("a"), text("a"), array);
    assert_eq!(v.data_type(), DataTypeId::Byte.as_node_id());
    assert_eq!(v.value_rank(), 1);
    assert_eq!(v.array_dimensions(), Some(vec![3]));

    let grid = Variant::MultiDimensionArray(Box::new(MultiDimensionArray {
        values: vec![Variant::Byte(1), Variant::Byte(2), Variant::Byte(3), Variant::Byte(4)],
        dimensions: vec![2, -2],
    }));
    let at = DateTime::ymd(2021, 1, 1);
    let v = Variable::new_data_value_at(
        &node_id,
        name("g"),
        text("g"),
        DataTypeId::Byte.as_node_id(),
        grid,
        &at,
    );
    assert_eq!(v.value_rank(), 2);
    assert_eq!(v.array_dimensions(), Some(vec![2, 0xffff_fffe]));
    assert_eq!(v.value().source_timestamp, at);
    assert_eq!(v.value().server_timestamp, at);
}

#[test]
fn a_variable_needs_a_value_with_a_data_type() {
    let node_id = NodeId::new_numeric(2, 1);
    assert!(Variable::try_new(&node_id, name("v"), text("v"), Variant::Empty).is_none());
    assert!(Variable::try_new(&node_id, name("v"), text("v"), Variant::Array(vec![])).is_none());
    assert!(Variable::try_new(&NodeId::null(), name("v"), text("v"), Variant::Byte(1)).is_none());
    assert!(
        Variable::try_new(&node_id, QualifiedName::null(), text("v"), Variant::Byte(1)).is_none()
    );
    let v = Variable::try_new(&node_id, name("v"), text("v"), Variant::Byte(1)).unwrap();
    assert_eq!(*v.value().value, Variant::Byte(1));
    assert_eq!(v.data_type(), DataTypeId::Byte.as_node_id());

    let typed = Variable::new_with_data_type(
        &node_id,
        "speed",
        "Speed",
        DataTypeId::Double,
        Variant::Empty,
    );
    assert_eq!(typed.data_type(), NodeId::new_numeric(0, 11));
    assert_eq!(typed.browse_name(), name("speed"));
    assert_eq!(typed.display_name(), text("Speed"));
    assert_eq!(*typed.value().value, Variant::Empty);
}

#[test]
fn setting_a_value_keeps_its_status() {
    let node_id = NodeId::new_numeric(2, 1);
    let mut v = Variable::new(&node_id, name("v"), text("v"), Variant::Int32(5));
    let server = DateTime::ymd(2021, 1, 1);
    let source = DateTime::ymd(2020, 1, 1);
    v.set_value_direct(Variant::Int32(6), &server, &source);
    let value = v.value();
    assert_eq!(*value.value, Variant::Int32(6));
    assert_eq!(value.server_timestamp, server);
    assert_eq!(value.source_timestamp, source);
    assert_eq!(value.status, StatusCode::Good);
    assert_eq!(v.data_type(), DataTypeId::Int32.as_node_id());

    v.set_value(Variant::Boolean(true));
    let value = v.value();
    assert_eq!(*value.value, Variant::Boolean(true));
    assert_eq!(value.server_timestamp, value.source_timestamp);
    assert!(value.source_timestamp.ticks() > server.ticks());
    // The data type is the one that the variable was made with.
    assert_eq!(v.data_type(), DataTypeId::Int32.as_node_id());
}

#[test]
fn a_variable_is_made_writable_and_back() {
    let node_id = NodeId::new_numeric(2, 1);
    let mut v = Variable::new(&node_id, name("v"), text("v"), Variant::Int32(5));
    v.set_writable(true);
    assert!(v.is_writable());
    assert!(v.is_readable());
    assert_eq!(v.access_level().bits(), 3);
    v.set_writable(false);
    assert!(!v.is_writable());
    assert_eq!(v.access_level().bits(), 1);
    v.set_user_access_level(UserAccessLevel::from_bits_truncate(
        UserAccessLevel::CURRENT_WRITE,
    ));
    assert!(v.is_user_writable());
    assert!(!v.is_user_readable());
}

#[test]
fn variable_setters_set_one_thing() {
    let node_id = NodeId::new_numeric(2, 1);
    let mut v = Variable::new(&node_id, name("v"), text("v"), Variant::Int32(5));
    v.set_value_rank(3);
    v.set_historizing(true);
    v.set_array_dimensions(&[1, 2, 3]);
    v.set_data_type(DataTypeId::Double.as_node_id());
    v.set_minimum_sampling_interval(0x3ff0_0000_0000_0000);
    v.set_display_name(text("other"));
    v.set_description(text("described"));
    v.set_write_mask(WriteMask::from_bits_truncate(WriteMask::DISPLAY_NAME));
    v.set_user_write_mask(WriteMask::from_bits_truncate(WriteMask::DESCRIPTION));
    assert_eq!(v.value_rank(), 3);
    assert!(v.historizing());
    assert_eq!(v.array_dimensions(), Some(vec![1, 2, 3]));
    assert_eq!(v.data_type(), NodeId::new_numeric(0, 11));
    assert_eq!(v.minimum_sampling_interval(), Some(0x3ff0_0000_0000_0000));
    assert_eq!(v.display_name(), text("other"));
    assert_eq!(v.description(), Some(text("described")));
    assert_eq!(v.write_mask().map(|m| m.bits()), Some(WriteMask::DISPLAY_NAME));
    assert_eq!(v.user_write_mask().map(|m| m.bits()), Some(WriteMask::DESCRIPTION));
    assert_eq!(v.browse_name(), name("v"));
    assert_eq!(*v.value().value, Variant::Int32(5));
}

#[test]
fn a_variable_gives_its_attributes() {
    let node_id = NodeId::new_numeric(2, 1);
    let mut v = Variable::new(&node_id, name("v"), text("v"), Variant::Int32(5));
    let get = |v: &Variable, id: AttributeId| v.get_attribute_max_age(id, 0).map(|d| *d.value);
    assert_eq!(get(&v, AttributeId::Value), Some(Variant::Int32(5)));
    assert_eq!(
        get(&v, AttributeId::DataType),
        Some(Variant::NodeId(Box::new(NodeId::new_numeric(0, 6))))
    );
    assert_eq!(get(&v, AttributeId::Historizing), Some(Variant::Boolean(false)));
    assert_eq!(get(&v, AttributeId::ValueRank), Some(Variant::Int32(-1)));
    assert_eq!(get(&v, AttributeId::AccessLevel), Some(Variant::Byte(1)));
    assert_eq!(get(&v, AttributeId::UserAccessLevel), Some(Variant::Byte(1)));
    assert_eq!(get(&v, AttributeId::ArrayDimensions), None);
    assert_eq!(get(&v, AttributeId::MinimumSamplingInterval), None);
    assert_eq!(get(&v, AttributeId::NodeClass), Some(Variant::Int32(2)));
    assert_eq!(
        get(&v, AttributeId::NodeId),
        Some(Variant::NodeId(Box::new(NodeId::new_numeric(2, 1))))
    );
    assert_eq!(
        get(&v, AttributeId::BrowseName),
        Some(Variant::QualifiedName(Box::new(name("v"))))
    );
    assert_eq!(
        get(&v, AttributeId::DisplayName),
        Some(Variant::LocalizedText(Box::new(text("v"))))
    );
    assert_eq!(get(&v, AttributeId::Description), None);
    assert_eq!(get(&v, AttributeId::WriteMask), None);
    assert_eq!(get(&v, AttributeId::IsAbstract), None);
    assert_eq!(get(&v, AttributeId::Executable), None);

    v.set_array_dimensions(&[2, 3]);
    v.set_minimum_sampling_interval(17);
    assert_eq!(
        get(&v, AttributeId::ArrayDimensions),
        Some(Variant::Array(vec![Variant::UInt32(2), Variant::UInt32(3)]))
    );
    assert_eq!(get(&v, AttributeId::MinimumSamplingInterval), Some(Variant::Double(17)));
    // What is no value of the variable carries no time.
    let data_type = v.get_attribute_max_age(AttributeId::DataType, 0).unwrap();
    assert_eq!(data_type.source_timestamp, DateTime::epoch());
    assert_eq!(data_type.status, StatusCode::Good);
}

#[test]
fn a_variable_takes_attributes_of_the_right_type_only() {
    let node_id = NodeId::new_numeric(2, 1);
    let mut v = Variable::new(&node_id, name("v"), text("v"), Variant::Int32(5));
    assert_eq!(v.set_attribute(AttributeId::Historizing, Variant::Boolean(true)), Ok(()));
    assert!(v.historizing());
    assert_eq!(
        v.set_attribute(AttributeId::Historizing, Variant::Int32(1)),
        Err(StatusCode::BadTypeMismatch)
    );
    assert!(v.historizing());
    assert_eq!(v.set_attribute(AttributeId::ValueRank, Variant::Int32(2)), Ok(()));
    assert_eq!(v.value_rank(), 2);
    assert_eq!(
        v.set_attribute(AttributeId::ValueRank, Variant::UInt32(3)),
        Err(StatusCode::BadTypeMismatch)
    );
    assert_eq!(v.value_rank(), 2);
    assert_eq!(v.set_attribute(AttributeId::AccessLevel, Variant::Byte(0xff)), Ok(()));
    assert_eq!(v.access_level().bits(), 0x7f);
    assert_eq!(v.set_attribute(AttributeId::UserAccessLevel, Variant::Byte(0xff)), Ok(()));
    assert_eq!(v.user_access_level().bits(), 0x6f);
    assert_eq!(
        v.set_attribute(AttributeId::AccessLevel, Variant::Int32(1)),
        Err(StatusCode::BadTypeMismatch)
    );
    assert_eq!(
        v.set_attribute(
            AttributeId::DataType,
            Variant::NodeId(Box::new(NodeId::new_numeric(0, 11)))
        ),
        Ok(())
    );
    assert_eq!(v.data_type(), NodeId::new_numeric(0, 11));
    assert_eq!(
        v.set_attribute(AttributeId::ArrayDimensions, Variant::from_u32_array(&[7])),
        Ok(())
    );
    assert_eq!(v.array_dimensions(), Some(vec![7]));
    assert_eq!(
        v.set_attribute(AttributeId::ArrayDimensions, Variant::UInt32(7)),
        Err(StatusCode::BadTypeMismatch)
    );
    assert_eq!(
        v.set_attribute(AttributeId::MinimumSamplingInterval, Variant::Double(5)),
        Ok(())
    );
    assert_eq!(v.minimum_sampling_interval(), Some(5));
    assert_eq!(
        v.set_attribute(AttributeId::MinimumSamplingInterval, Variant::Float(5)),
        Err(StatusCode::BadTypeMismatch)
    );
    // The value takes a value of any type.
    let at = DateTime::ymd(2022, 2, 2);
    assert_eq!(
        v.set_attribute_at(AttributeId::Value, Variant::String(UAString::from_str("s")), &at),
        Ok(())
    );
    assert_eq!(*v.value().value, Variant::String(UAString::from_str("s")));
    assert_eq!(v.value().source_timestamp, at);
    // Attributes of every node.
    assert_eq!(
        v.set_attribute(AttributeId::DisplayName, Variant::LocalizedText(Box::new(text("n")))),
        Ok(())
    );
    assert_eq!(v.display_name(), text("n"));
    assert_eq!(
        v.set_attribute(AttributeId::DisplayName, Variant::Int32(1)),
        Err(StatusCode::BadTypeMismatch)
    );
    assert!(v.set_attribute(AttributeId::IsAbstract, Variant::Boolean(true)).is_err());
}

#[test]
fn a_variable_is_made_from_attributes() {
    let node_id = NodeId::new_numeric(2, 1);
    let at = DateTime::ymd(2022, 2, 2);

    // A bit without a meaning.
    assert!(Variable::from_attributes(
        &node_id,
        name("v"),
        variable_attributes(VARIABLE_MANDATORY | (1 << 2))
    )
    .is_err());
    // A mandatory attribute is missing.
    assert!(Variable::from_attributes(
        &node_id,
        name("v"),
        variable_attributes(VARIABLE_MANDATORY & !AttributesMask::VALUE)
    )
    .is_err());
    assert!(Variable::from_attributes(&node_id, name("v"), variable_attributes(0)).is_err());

    let v = Variable::from_attributes_at(
        &node_id,
        name("v"),
        variable_attributes(VARIABLE_MANDATORY),
        &at,
    )
    .unwrap();
    assert_eq!(v.node_id(), node_id);
    assert_eq!(v.browse_name(), name("v"));
    assert_eq!(v.display_name(), text("Speed"));
    assert_eq!(v.description(), None);
    assert_eq!(v.write_mask(), None);
    assert_eq!(v.user_write_mask(), None);
    assert_eq!(*v.value().value, Variant::Int32(77));
    assert_eq!(v.value().source_timestamp, at);
    assert_eq!(v.data_type(), NodeId::new_numeric(0, 6));
    assert_eq!(v.value_rank(), -1);
    assert!(v.historizing());
    assert_eq!(v.access_level().bits(), 0x7f);
    assert_eq!(v.user_access_level().bits(), 0x6f);
    assert_eq!(v.array_dimensions(), None);
    assert_eq!(v.minimum_sampling_interval(), None);

    let v = Variable::from_attributes(&node_id, name("v"), variable_attributes(AttributesMask::ALL))
        .unwrap();
    assert_eq!(v.description(), Some(text("How fast it goes")));
    assert_eq!(v.write_mask().map(|m| m.bits()), Some(WriteMask::ALL));
    assert_eq!(
        v.user_write_mask().map(|m| m.bits()),
        Some(WriteMask::VALUE_FOR_VARIABLE_TYPE)
    );
    assert_eq!(v.array_dimensions(), Some(vec![4, 5]));
    assert_eq!(v.minimum_sampling_interval(), Some(0x4059_0000_0000_0000));
    assert_eq!(v.value().source_timestamp, v.value().server_timestamp);
}

#[test]
fn an_object_is_made_and_changed() {
    let node_id = NodeId::new_string(1, "pump");
    let mut o = Object::new(&node_id, name("pump"), text("Pump"), EventNotifier::empty());
    assert_eq!(o.node_class(), NodeClass::Object);
    assert_eq!(o.node_id(), node_id);
    assert_eq!(o.event_notifier().bits(), 0);
    assert!(o.is_valid());
    o.set_event_notifier(EventNotifier::from_bits_truncate(EventNotifier::SUBSCRIBE_TO_EVENTS));
    assert_eq!(
        o.get_attribute_max_age(AttributeId::EventNotifier, 0).map(|d| *d.value),
        Some(Variant::Byte(1))
    );
    assert_eq!(o.set_attribute(AttributeId::EventNotifier, Variant::Byte(0xff)), Ok(()));
    assert_eq!(o.event_notifier().bits(), 0x0d);
    assert_eq!(
        o.set_attribute(AttributeId::EventNotifier, Variant::Boolean(true)),
        Err(StatusCode::BadTypeMismatch)
    );
    assert_eq!(o.event_notifier().bits(), 0x0d);
    assert!(o.set_attribute(AttributeId::Value, Variant::Byte(1)).is_err());

    let attributes = |mask: u32| ObjectAttributes {
        specified_attributes: mask,
        display_name: text("Pump"),
        description: text("A pump"),
        write_mask: 0,
        user_write_mask: 0,
        event_notifier: 0xf5,
    };
    assert!(Object::from_attributes(&node_id, name("p"), attributes(AttributesMask::DISPLAY_NAME))
        .is_err());
    let o = Object::from_attributes(
        &node_id,
        name("p"),
        attributes(
            AttributesMask::DISPLAY_NAME
                | AttributesMask::EVENT_NOTIFIER
                | AttributesMask::DESCRIPTION,
        ),
    )
    .unwrap();
    assert_eq!(o.display_name(), text("Pump"));
    assert_eq!(o.description(), Some(text("A pump")));
    assert_eq!(o.write_mask(), None);
    assert_eq!(o.event_notifier().bits(), 0x05);
}

#[test]
fn a_view_is_made_and_changed() {
    let node_id = NodeId::new_string(1, "view");
    let mut v = ViewNode::new(
        &node_id,
        name("view"),
        text("View"),
        EventNotifier::from_bits_truncate(EventNotifier::SUBSCRIBE_TO_EVENTS),
        true,
    );
    assert_eq!(v.node_class(), NodeClass::View);
    assert!(v.contains_no_loops());
    assert_eq!(v.event_notifier().bits(), 1);
    v.set_contains_no_loops(false);
    assert!(!v.contains_no_loops());
    assert_eq!(v.set_attribute(AttributeId::ContainsNoLoops, Variant::Boolean(true)), Ok(()));
    assert!(v.contains_no_loops());
    assert_eq!(
        v.set_attribute(AttributeId::ContainsNoLoops, Variant::Byte(1)),
        Err(StatusCode::BadTypeMismatch)
    );
    assert_eq!(
        v.get_attribute_max_age(AttributeId::ContainsNoLoops, 0).map(|d| *d.value),
        Some(Variant::Boolean(true))
    );

    let attributes = |mask: u32| ViewAttributes {
        specified_attributes: mask,
        display_name: text("View"),
        description: text("A view"),
        write_mask: 0,
        user_write_mask: 0,
        contains_no_loops: true,
        event_notifier: 4,
    };
    assert!(ViewNode::from_attributes(
        &node_id,
        name("v"),
        attributes(AttributesMask::DISPLAY_NAME | AttributesMask::EVENT_NOTIFIER)
    )
    .is_err());
    let v = ViewNode::from_attributes(
        &node_id,
        name("v"),
        attributes(
            AttributesMask::DISPLAY_NAME
                | AttributesMask::EVENT_NOTIFIER
                | AttributesMask::CONTAINS_NO_LOOPS,
        ),
    )
    .unwrap();
    assert!(v.contains_no_loops());
    assert_eq!(v.event_notifier().bits(), 4);
    assert_eq!(v.description(), None);
}

#[test]
fn a_data_type_is_made_and_changed() {
    let node_id = NodeId::new_numeric(1, 3000);
    let mut d = DataType::new(&node_id, name("Speed"), text("Speed"), false);
    assert_eq!(d.node_class(), NodeClass::DataType);
    assert!(!d.is_abstract());
    d.set_is_abstract(true);
    assert!(d.is_abstract());
    assert_eq!(d.set_attribute(AttributeId::IsAbstract, Variant::Boolean(false)), Ok(()));
    assert!(!d.is_abstract());
    assert_eq!(
        d.set_attribute(AttributeId::IsAbstract, Variant::Byte(0)),
        Err(StatusCode::BadTypeMismatch)
    );
    assert_eq!(
        d.get_attribute_max_age(AttributeId::IsAbstract, 0).map(|d| *d.value),
        Some(Variant::Boolean(false))
    );

    let attributes = |mask: u32| DataTypeAttributes {
        specified_attributes: mask,
        display_name: text("Speed"),
        description: text("A speed"),
        write_mask: 0,
        user_write_mask: 0,
        is_abstract: true,
    };
    assert!(DataType::from_attributes(&node_id, name("s"), attributes(AttributesMask::DISPLAY_NAME))
        .is_err());
    let d = DataType::from_attributes(
        &node_id,
        name("s"),
        attributes(AttributesMask::DISPLAY_NAME | AttributesMask::IS_ABSTRACT),
    )
    .unwrap();
    assert!(d.is_abstract());
    assert_eq!(d.display_name(), text("Speed"));
}

#[test]
fn a_reference_type_is_made_and_changed() {
    let node_id = NodeId::new_numeric(1, 4000);
    let mut r = ReferenceType::new(
        &node_id,
        name("Feeds"),
        text("Feeds"),
        Some(text("FedBy")),
        false,
        true,
    );
    assert_eq!(r.node_class(), NodeClass::ReferenceType);
    assert!(!r.symmetric());
    assert!(r.is_abstract());
    assert_eq!(r.inverse_name(), Some(text("FedBy")));
    r.set_symmetric(true);
    r.set_is_abstract(false);
    r.set_inverse_name(text("Back"));
    assert!(r.symmetric());
    assert!(!r.is_abstract());
    assert_eq!(r.inverse_name(), Some(text("Back")));
    assert_eq!(
        r.get_attribute_max_age(AttributeId::InverseName, 0).map(|d| *d.value),
        Some(Variant::LocalizedText(Box::new(text("Back"))))
    );
    assert_eq!(r.set_attribute(AttributeId::Symmetric, Variant::Boolean(false)), Ok(()));
    assert!(!r.symmetric());
    assert_eq!(
        r.set_attribute(AttributeId::Symmetric, Variant::Int32(0)),
        Err(StatusCode::BadTypeMismatch)
    );

    let attributes = |mask: u32| ReferenceTypeAttributes {
        specified_attributes: mask,
        display_name: text("Feeds"),
        description: text("Feeds"),
        write_mask: 0,
        user_write_mask: 0,
        is_abstract: true,
        symmetric: false,
        inverse_name: text("FedBy"),
    };
    assert!(ReferenceType::from_attributes(
        &node_id,
        name("f"),
        attributes(AttributesMask::DISPLAY_NAME | AttributesMask::IS_ABSTRACT)
    )
    .is_err());
    let r = ReferenceType::from_attributes(
        &node_id,
        name("f"),
        attributes(
            AttributesMask::DISPLAY_NAME
                | AttributesMask::IS_ABSTRACT
                | AttributesMask::SYMMETRIC
                | AttributesMask::INVERSE_NAME,
        ),
    )
    .unwrap();
    assert!(r.is_abstract());
    assert_eq!(r.inverse_name(), Some(text("FedBy")));
}

#[test]
fn a_variable_type_is_made_and_changed() {
    let node_id = NodeId::new_numeric(1, 5000);
    let mut t = VariableType::new(
        &node_id,
        name("SpeedType"),
        text("SpeedType"),
        DataTypeId::Double.as_node_id(),
        false,
        -1,
    );
    assert_eq!(t.node_class(), NodeClass::VariableType);
    assert_eq!(t.data_type(), NodeId::new_numeric(0, 11));
    assert!(!t.is_abstract());
    assert_eq!(t.value_rank(), -1);
    assert_eq!(t.array_dimensions(), None);
    assert_eq!(t.value(), None);
    let at = DateTime::ymd(2022, 2, 2);
    t.set_value_at(Variant::Double(1), &at);
    assert_eq!(t.value(), Some(DataValue::new_at(Variant::Double(1), &at)));
    t.set_value(Variant::Double(2));
    assert_eq!(t.value().map(|d| *d.value), Some(Variant::Double(2)));
    t.set_array_dimensions(&[9]);
    t.set_value_rank(1);
    t.set_is_abstract(true);
    t.set_data_type(DataTypeId::Float.as_node_id());
    assert_eq!(t.array_dimensions(), Some(vec![9]));
    assert_eq!(t.value_rank(), 1);
    assert!(t.is_abstract());
    assert_eq!(t.data_type(), NodeId::new_numeric(0, 10));
    assert_eq!(
        t.set_attribute(AttributeId::ValueRank, Variant::Int16(1)),
        Err(StatusCode::BadTypeMismatch)
    );
    assert_eq!(t.set_attribute(AttributeId::ValueRank, Variant::Int32(-2)), Ok(()));
    assert_eq!(t.value_rank(), -2);

    let attributes = |mask: u32| VariableTypeAttributes {
        specified_attributes: mask,
        display_name: text("SpeedType"),
        description: text("A speed"),
        write_mask: 0,
        user_write_mask: 0,
        value: Variant::Double(3),
        data_type: DataTypeId::Double.as_node_id(),
        value_rank: 1,
        array_dimensions: Some(vec![2]),
        is_abstract: true,
    };
    let mandatory = AttributesMask::DISPLAY_NAME
        | AttributesMask::IS_ABSTRACT
        | AttributesMask::DATA_TYPE
        | AttributesMask::VALUE_RANK;
    assert!(VariableType::from_attributes(
        &node_id,
        name("t"),
        attributes(mandatory & !AttributesMask::DATA_TYPE)
    )
    .is_err());
    let t = VariableType::from_attributes_at(&node_id, name("t"), attributes(mandatory), &at)
        .unwrap();
    assert_eq!(t.value(), None);
    assert_eq!(t.array_dimensions(), None);
    assert_eq!(t.value_rank(), 1);
    assert!(t.is_abstract());
    let t = VariableType::from_attributes_at(
        &node_id,
        name("t"),
        attributes(mandatory | AttributesMask::VALUE | AttributesMask::ARRAY_DIMENSIONS),
        &at,
    )
    .unwrap();
    assert_eq!(t.value(), Some(DataValue::new_at(Variant::Double(3), &at)));
    assert_eq!(t.array_dimensions(), Some(vec![2]));
}

#[test]
fn a_reference_is_told_from_either_side() {
    let node = NodeId::new_numeric(2, 1);
    let other = NodeId::new_numeric(2, 2);
    let forward = Reference::new(
        &node,
        &(
            NodeId::new_numeric(2, 2),
            ReferenceTypeId::HasComponent.as_node_id(),
            ReferenceDirection::Forward,
        ),
    );
    assert_eq!(forward.source, node);
    assert_eq!(forward.target, other);
    assert_eq!(forward.reference_type, NodeId::new_numeric(0, 47));
    let inverse = Reference::new(
        &node,
        &(
            NodeId::new_numeric(2, 2),
            ReferenceTypeId::HasComponent.as_node_id(),
            ReferenceDirection::Inverse,
        ),
    );
    assert_eq!(inverse.source, other);
    assert_eq!(inverse.target, node);
    assert_eq!(inverse.reference_type, NodeId::new_numeric(0, 47));
}

#[test]
fn an_address_space_holds_each_node_id_once() {
    let mut space = AddressSpace::new();
    assert_eq!(space.len(), 0);
    assert_eq!(space.references_len(), 0);
    let id = NodeId::new_string(2, "abort");
    assert!(!space.node_exists(&id));
    assert!(space.find(&id).is_none());

    let first = Variable::new(&id, name("Abort"), text("Abort"), Variant::Boolean(false));
    let parent = (
        objects_folder(),
        ReferenceTypeId::Organizes.as_node_id(),
        ReferenceDirection::Inverse,
    );
    assert!(space.insert(NodeType::Variable(Box::new(first)), &[parent]));
    assert_eq!(space.len(), 1);
    assert_eq!(space.references_len(), 1);
    assert!(space.node_exists(&id));
    assert!(space.has_reference(&objects_folder(), &NodeId::new_numeric(0, 35), &id));
    assert!(!space.has_reference(&id, &NodeId::new_numeric(0, 35), &objects_folder()));

    // A second node with the same id is turned away, with its references.
    let second = Object::new(&id, name("Other"), text("Other"), EventNotifier::empty());
    let child = (
        NodeId::new_numeric(2, 9),
        ReferenceTypeId::HasComponent.as_node_id(),
        ReferenceDirection::Forward,
    );
    assert!(!space.insert(NodeType::Object(Box::new(second)), &[child]));
    assert_eq!(space.len(), 1);
    assert_eq!(space.references_len(), 1);
    match space.find(&id) {
        Some(NodeType::Variable(v)) => assert_eq!(v.browse_name(), name("Abort")),
        other => panic!("the first node is gone: {:?}", other),
    }

    let other_id = NodeId::new_numeric(2, 9);
    let third = Object::new(&other_id, name("Other"), text("Other"), EventNotifier::empty());
    assert!(space.insert(NodeType::Object(Box::new(third)), &[]));
    assert_eq!(space.len(), 2);
    assert_eq!(space.references_len(), 1);
    let found = space.find(&other_id).unwrap();
    assert_eq!(found.node_id(), other_id);
    assert_eq!(found.node_class(), NodeClass::Object);
}

#[test]
fn an_object_is_built_and_inserted() {
    let id = NodeId::new_string(2, "Control");
    let builder = ObjectBuilder::new(&id, name("Control"), text("Control"));
    assert!(builder.is_valid());
    assert_eq!(builder.get_node_id(), id);
    let object = ObjectBuilder::new(&id, name("Control"), text("Control"))
        .description(text("Switches"))
        .event_notifier(EventNotifier::from_bits_truncate(EventNotifier::SUBSCRIBE_TO_EVENTS))
        .build();
    assert_eq!(object.node_id(), id);
    assert_eq!(object.browse_name(), name("Control"));
    assert_eq!(object.display_name(), text("Control"));
    assert_eq!(object.description(), Some(text("Switches")));
    assert_eq!(object.event_notifier().bits(), 1);

    assert!(!ObjectBuilder::new(&NodeId::null(), name("x"), text("x")).is_valid());
    assert!(!ObjectBuilder::new(&id, QualifiedName::null(), text("x")).is_valid());

    let mut space = AddressSpace::new();
    let inserted = ObjectBuilder::new(&id, name("Control"), text("Control"))
        .is_folder()
        .organized_by(objects_folder())
        .organizes(NodeId::new_numeric(2, 1))
        .component_of(NodeId::new_numeric(2, 2))
        .has_component(NodeId::new_numeric(2, 3))
        .has_property(NodeId::new_numeric(2, 4))
        .property_of(NodeId::new_numeric(2, 5))
        .has_event_source(NodeId::new_numeric(2, 6))
        .reference(
            NodeId::new_numeric(2, 7),
            ReferenceTypeId::HasNotifier,
            ReferenceDirection::Inverse,
        )
        .insert(&mut space);
    assert!(inserted);
    assert_eq!(space.len(), 1);
    assert_eq!(space.references_len(), 9);
    let t = |n: u32| NodeId::new_numeric(0, n);
    let n = |n: u32| NodeId::new_numeric(2, n);
    assert!(space.has_reference(&id, &t(40), &t(61)));
    assert!(space.has_reference(&objects_folder(), &t(35), &id));
    assert!(space.has_reference(&id, &t(35), &n(1)));
    assert!(space.has_reference(&n(2), &t(47), &id));
    assert!(space.has_reference(&id, &t(47), &n(3)));
    assert!(space.has_reference(&id, &t(46), &n(4)));
    assert!(space.has_reference(&n(5), &t(46), &id));
    assert!(space.has_reference(&id, &t(36), &n(6)));
    assert!(space.has_reference(&n(7), &t(48), &id));
    assert!(!space.has_reference(&id, &t(48), &n(7)));

    // The same id again.
    assert!(!ObjectBuilder::new(&id, name("Again"), text("Again"))
        .is_folder()
        .insert(&mut space));
    assert_eq!(space.len(), 1);
    assert_eq!(space.references_len(), 9);
}

#[test]
fn a_variable_is_built_and_inserted() {
    let id = NodeId::new_string(2, "abort");
    let built = VariableBuilder::new(&id, name("Abort"), text("Abort"))
        .value(Variant::Boolean(false))
        .data_type(DataTypeId::Boolean.as_node_id())
        .historizing(true)
        .access_level(AccessLevel::from_bits_truncate(3))
        .user_access_level(UserAccessLevel::from_bits_truncate(2))
        .value_rank(1)
        .array_dimensions(&[1])
        .minimum_sampling_interval(9)
        .description(text("Stops the server"))
        .build();
    assert_eq!(built.node_id(), id);
    assert_eq!(*built.value().value, Variant::Boolean(false));
    assert_eq!(built.data_type(), NodeId::new_numeric(0, 1));
    assert!(built.historizing());
    assert_eq!(built.access_level().bits(), 3);
    assert_eq!(built.user_access_level().bits(), 2);
    assert_eq!(built.value_rank(), 1);
    assert_eq!(built.array_dimensions(), Some(vec![1]));
    assert_eq!(built.minimum_sampling_interval(), Some(9));
    assert_eq!(built.description(), Some(text("Stops the server")));

    // What is there before anything is set.
    let plain = VariableBuilder::new(&id, name("Abort"), text("Abort")).build();
    assert_eq!(*plain.value().value, Variant::Empty);
    assert_eq!(plain.value().source_timestamp, DateTime::epoch());
    assert_eq!(plain.data_type(), NodeId::null());
    assert_eq!(plain.value_rank(), -1);
    assert_eq!(plain.access_level().bits(), 1);
    assert_eq!(plain.user_access_level().bits(), 1);

    // Of a level that can be read only nothing is left.
    let narrowed = VariableBuilder::new(&id, name("Abort"), text("Abort")).writable().build();
    assert_eq!(narrowed.access_level().bits(), 0);
    let narrowed = VariableBuilder::new(&id, name("Abort"), text("Abort"))
        .access_level(AccessLevel::from_bits_truncate(0x7f))
        .writable()
        .build();
    assert_eq!(narrowed.access_level().bits(), 2);
    assert!(narrowed.is_writable());
    assert!(!narrowed.is_readable());

    let mut space = AddressSpace::new();
    let folder = NodeId::new_string(2, "Control");
    assert!(VariableBuilder::new(&id, name("Abort"), text("Abort"))
        .value(Variant::Boolean(false))
        .writable()
        .organized_by(NodeId::new_string(2, "Control"))
        .has_type_definition(NodeId::new_numeric(0, 63))
        .has_modelling_rule(NodeId::new_numeric(0, 78))
        .insert(&mut space));
    assert_eq!(space.references_len(), 3);
    assert!(space.has_reference(&folder, &NodeId::new_numeric(0, 35), &id));
    assert!(space.has_reference(&id, &NodeId::new_numeric(0, 40), &NodeId::new_numeric(0, 63)));
    assert!(space.has_reference(&id, &NodeId::new_numeric(0, 37), &NodeId::new_numeric(0, 78)));
    match space.find(&id) {
        Some(NodeType::Variable(v)) => assert_eq!(*v.value().value, Variant::Boolean(false)),
        other => panic!("no variable: {:?}", other),
    }
}

#[test]
fn a_view_is_built_and_inserted() {
    let id = NodeId::new_string(2, "overview");
    let view = ViewBuilder::new(&id, name("Overview"), text("Overview"))
        .contains_no_loops(true)
        .event_notifier(EventNotifier::from_bits_truncate(EventNotifier::HISTORY_READ))
        .build();
    assert!(view.contains_no_loops());
    assert_eq!(view.event_notifier().bits(), 4);
    assert_eq!(view.node_class(), NodeClass::View);

    let mut space = AddressSpace::new();
    assert!(ViewBuilder::new(&id, name("Overview"), text("Overview"))
        .generates_event(NodeId::new_numeric(0, 2041))
        .organized_by(NodeId::new_numeric(0, 87))
        .insert(&mut space));
    assert!(space.has_reference(&id, &NodeId::new_numeric(0, 41), &NodeId::new_numeric(0, 2041)));
    assert!(space.has_reference(&NodeId::new_numeric(0, 87), &NodeId::new_numeric(0, 35), &id));
    assert_eq!(space.find(&id).map(|n| n.node_class()), Some(NodeClass::View));
}
