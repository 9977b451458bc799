use fbx_sanitizer::axis::axis_letter;
use fbx_sanitizer::axis::parse_letters;
use fbx_sanitizer::policy::coordinate_axis_for_software;
use fbx_sanitizer::settings::get_axis;
use fbx_sanitizer::settings::get_coordinate_axis;
use fbx_sanitizer::ApplicationName;
use fbx_sanitizer::AttributeValue;
use fbx_sanitizer::Axis;
use fbx_sanitizer::CoordinateAxis;
use fbx_sanitizer::Document;
use fbx_sanitizer::GlobalSettings;
use fbx_sanitizer::Property;
use fbx_sanitizer::VerifyError;

fn prop(name: &str, values: Vec<AttributeValue>) -> (String, Property) {
    (name.to_owned(), Property { values })
}

fn i32_prop(name: &str, v: i32) -> (String, Property) {
    prop(name, vec![AttributeValue::I32(v)])
}

fn settings_with(entries: Vec<(String, Property)>) -> GlobalSettings {
    GlobalSettings {
        properties: entries,
    }
}

/// Global settings declaring the given axis indices and signs for all three
/// base names.
fn full_settings(
    up: (i32, i32),
    front: (i32, i32),
    coord: (i32, i32),
) -> GlobalSettings {
    settings_with(vec![
        i32_prop("UpAxis", up.0),
        i32_prop("UpAxisSign", up.1),
        i32_prop("FrontAxis", front.0),
        i32_prop("FrontAxisSign", front.1),
        i32_prop("CoordAxis", coord.0),
        i32_prop("CoordAxisSign", coord.1),
    ])
}

fn doc_with(gs: GlobalSettings) -> Document {
    Document {
        global_settings: Some(gs),
    }
}

fn units() -> [Axis; 6] {
    [
    Axis { x: 1, y: 0, z: 0 },
    Axis { x: -1, y: 0, z: 0 },
    Axis { x: 0, y: 1, z: 0 },
    Axis { x: 0, y: -1, z: 0 },
    Axis { x: 0, y: 0, z: 1 },
    Axis { x: 0, y: 0, z: -1 },
    ]
}

#[test]
fn letter_round_trip_on_all_six_units() {
    let expected = ["+X", "-X", "+Y", "-Y", "+Z", "-Z"];
    for (axis, letters) in units().iter().zip(expected.iter()) {
        let rendered = axis_letter(axis);
        assert_eq!(rendered, *letters);
        assert_eq!(parse_letters(&rendered), Some(*axis));
    }
}

#[test]
fn no_other_text_parses() {
    for text in ["", "+", "X", "X+", "+x", "xX", "+W", "-W", "+XX", " +X", "+X "] {
        assert_eq!(parse_letters(text), None);
    }
}

#[test]
fn non_unit_axes_are_invalid() {
    assert!(!Axis { x: 0, y: 0, z: 0 }.is_valid());
    assert!(!Axis { x: 2, y: 0, z: 0 }.is_valid());
    assert!(!Axis { x: 1, y: 1, z: 0 }.is_valid());
    assert!(!Axis { x: 0, y: -5, z: 0 }.is_valid());
    for axis in units() {
        assert!(axis.is_valid());
    }
}

#[test]
fn missing_sign_property_yields_absence() {
    let gs = settings_with(vec![i32_prop("UpAxis", 1)]);
    assert_eq!(get_axis(&gs, "UpAxis"), None);
}

#[test]
fn axis_index_three_yields_absence() {
    let gs = settings_with(vec![i32_prop("UpAxis", 3), i32_prop("UpAxisSign", 1)]);
    assert_eq!(get_axis(&gs, "UpAxis"), None);
}

#[test]
fn negative_axis_index_yields_absence() {
    let gs = settings_with(vec![i32_prop("UpAxis", -1), i32_prop("UpAxisSign", 1)]);
    assert_eq!(get_axis(&gs, "UpAxis"), None);
}

#[test]
fn non_integer_values_yield_absence() {
    let gs = settings_with(vec![
        prop("UpAxis", vec![AttributeValue::Other]),
        i32_prop("UpAxisSign", 1),
    ]);
    assert_eq!(get_axis(&gs, "UpAxis"), None);

    let gs = settings_with(vec![
        i32_prop("UpAxis", 1),
        prop("UpAxisSign", vec![AttributeValue::Other]),
    ]);
    assert_eq!(get_axis(&gs, "UpAxis"), None);

    let gs = settings_with(vec![prop("UpAxis", vec![]), i32_prop("UpAxisSign", 1)]);
    assert_eq!(get_axis(&gs, "UpAxis"), None);
}

#[test]
fn only_the_first_value_element_counts() {
    let gs = settings_with(vec![
        prop("UpAxis", vec![AttributeValue::Other, AttributeValue::I32(1)]),
        i32_prop("UpAxisSign", 1),
    ]);
    assert_eq!(get_axis(&gs, "UpAxis"), None);

    let gs = settings_with(vec![
        prop("UpAxis", vec![AttributeValue::I32(1), AttributeValue::Other]),
        i32_prop("UpAxisSign", 1),
    ]);
    assert_eq!(get_axis(&gs, "UpAxis"), Some(Axis { x: 0, y: 1, z: 0 }));
}

#[test]
fn first_property_with_a_name_wins() {
    let gs = settings_with(vec![
        i32_prop("UpAxis", 1),
        i32_prop("UpAxis", 2),
        i32_prop("UpAxisSign", 1),
    ]);
    assert_eq!(get_axis(&gs, "UpAxis"), Some(Axis { x: 0, y: 1, z: 0 }));
}

#[test]
fn sign_value_is_narrowed_and_taken_verbatim() {
    let gs = settings_with(vec![i32_prop("UpAxis", 0), i32_prop("UpAxisSign", 5)]);
    assert_eq!(get_axis(&gs, "UpAxis"), Some(Axis { x: 5, y: 0, z: 0 }));

    // Narrowing keeps only the low eight bits.
    let gs = settings_with(vec![i32_prop("UpAxis", 0), i32_prop("UpAxisSign", 257)]);
    assert_eq!(get_axis(&gs, "UpAxis"), Some(Axis { x: 1, y: 0, z: 0 }));

    let gs = settings_with(vec![i32_prop("UpAxis", 0), i32_prop("UpAxisSign", 256)]);
    assert_eq!(get_axis(&gs, "UpAxis"), Some(Axis { x: 0, y: 0, z: 0 }));
}

#[test]
fn no_partial_basis() {
    // No global settings at all.
    let doc = Document {
        global_settings: None,
    };
    assert_eq!(get_coordinate_axis(&doc), None);

    // Each of the three extractions failing alone spoils the whole basis.
    for missing in ["UpAxis", "FrontAxis", "CoordAxis"] {
        let gs = full_settings((1, 1), (2, 1), (0, 1));
        let entries: Vec<(String, Property)> = gs
            .properties
            .into_iter()
            .filter(|(name, _)| name.as_str() != missing)
            .collect();
        let doc = doc_with(settings_with(entries));
        assert_eq!(get_coordinate_axis(&doc), None);
    }
}

#[test]
fn full_basis_is_extracted() {
    let doc = doc_with(full_settings((1, 1), (2, 1), (0, -1)));
    assert_eq!(
        get_coordinate_axis(&doc),
        Some(CoordinateAxis {
            up: Axis { x: 0, y: 1, z: 0 },
            front: Axis { x: 0, y: 0, z: 1 },
            coord: Axis { x: -1, y: 0, z: 0 },
        })
    );
}

#[test]
fn policy_is_total_and_pure() {
    let identities = [
        None,
        Some(ApplicationName::Max),
        Some(ApplicationName::Blender),
        Some(ApplicationName::Maya),
    ];
    let default_basis = CoordinateAxis {
        up: Axis { x: 0, y: 1, z: 0 },
        front: Axis { x: 0, y: 0, z: 1 },
        coord: Axis { x: 1, y: 0, z: 0 },
    };
    for identity in identities {
        let first = coordinate_axis_for_software(&identity);
        let second = coordinate_axis_for_software(&identity);
        assert_eq!(first, second);
        assert!(first.is_well_formed());
    }
    assert_eq!(coordinate_axis_for_software(&None), default_basis);
    assert_eq!(
        coordinate_axis_for_software(&Some(ApplicationName::Maya)),
        default_basis
    );
}

#[test]
fn policy_for_max_and_blender() {
    assert_eq!(
        coordinate_axis_for_software(&Some(ApplicationName::Max)),
        CoordinateAxis {
            up: Axis { x: 0, y: 0, z: 1 },
            front: Axis { x: 0, y: -1, z: 0 },
            coord: Axis { x: 1, y: 0, z: 0 },
        }
    );
    assert_eq!(
        coordinate_axis_for_software(&Some(ApplicationName::Blender)),
        CoordinateAxis {
            up: Axis { x: 0, y: 0, z: 1 },
            front: Axis { x: 0, y: 1, z: 0 },
            coord: Axis { x: -1, y: 0, z: 0 },
        }
    );
}

#[test]
fn scenario_matching_default_passes() {
    let doc = doc_with(full_settings((1, 1), (2, 1), (0, 1)));
    let diagnostics = fbx_sanitizer::verify(&doc, &None).unwrap();
    assert!(diagnostics.is_empty());
}

#[test]
fn scenario_max_mismatch_reports_one_diagnostic() {
    let doc = doc_with(full_settings((1, 1), (2, 1), (0, 1)));
    let diagnostics = fbx_sanitizer::verify(&doc, &Some(ApplicationName::Max)).unwrap();
    assert_eq!(diagnostics.len(), 1);
    assert!(diagnostics[0]
        .contains("Expected Front:-Y,Up:+Z,Coord:+X actual Front:+Z,Up:+Y,Coord:+X"));
    assert!(diagnostics[0].contains("Max"));
}

#[test]
fn scenario_missing_coord_axis_fails() {
    let gs = settings_with(vec![
        i32_prop("UpAxis", 1),
        i32_prop("UpAxisSign", 1),
        i32_prop("FrontAxis", 2),
        i32_prop("FrontAxisSign", 1),
        i32_prop("CoordAxisSign", 1),
    ]);
    let result = fbx_sanitizer::verify(&doc_with(gs), &None);
    assert_eq!(result, Err(VerifyError::MissingAxisData));
    assert_eq!(
        VerifyError::MissingAxisData.message(),
        "Could not find coordinate axis."
    );
}

#[test]
fn scenario_blender_matching_export_passes() {
    let doc = doc_with(full_settings((2, 1), (1, 1), (0, -1)));
    let diagnostics = fbx_sanitizer::verify(&doc, &Some(ApplicationName::Blender)).unwrap();
    assert!(diagnostics.is_empty());
}

#[test]
fn mismatch_message_is_exact() {
    let doc = doc_with(full_settings((1, 1), (2, 1), (0, 1)));
    let diagnostics = fbx_sanitizer::verify(&doc, &Some(ApplicationName::Blender)).unwrap();
    assert_eq!(
        diagnostics,
        vec![
            "File has incorrect Coordinate Axis. Expected Front:+Y,Up:+Z,Coord:-X \
             actual Front:+Z,Up:+Y,Coord:+X. [Some(Blender)]"
                .to_owned()
        ]
    );
}

#[test]
fn display_triplet_renders_front_up_coord() {
    let basis = CoordinateAxis {
        up: Axis { x: 0, y: 0, z: 1 },
        front: Axis { x: 0, y: -1, z: 0 },
        coord: Axis { x: 1, y: 0, z: 0 },
    };
    assert_eq!(basis.display_triplet(), "Front:-Y,Up:+Z,Coord:+X");
}
