use physarum::parameters::{
    Fixed, InitialConditions, InitialHeading, Parameters, ShaderParameters, Tunables,
    UniformField, SHADER_PARAMETERS_SIZE,
};

fn fixed(millionths: u64) -> Fixed {
    Fixed { millionths }
}

fn in_range(record: &ShaderParameters) -> bool {
    (1_000..500_000).contains(&record.decay_strength.millionths)
        && (1_000_000..120_000_000).contains(&record.sensor_angle_degrees.millionths)
        && (1_000_000..60_000_000).contains(&record.max_turn_angle_degrees.millionths)
        && (0..10_000_000).contains(&record.max_rand_turn_angle_degrees.millionths)
        && (0..20_000_000).contains(&record.high_density_speed_boost.millionths)
        && (500_000..1_000_000).contains(&record.high_density_threshold.millionths)
        && (1_000..30_000).contains(&record.deposit_strength.millionths)
        && (5_000_000..14_000_000).contains(&record.sensor_distance.millionths)
}

#[test]
fn initial_heading_defaults_to_random() {
    assert_eq!(InitialHeading::default(), InitialHeading::Random);
}

#[test]
fn initial_conditions_default() {
    let conditions = InitialConditions::default();
    assert_eq!(conditions.initial_circle_radius, fixed(500_000_000));
    assert_eq!(conditions.initial_heading, InitialHeading::Random);
}

#[test]
fn shader_parameters_defaults() {
    let record = ShaderParameters::new(1400, 900);
    assert_eq!(record.canvas_width, 1400);
    assert_eq!(record.canvas_height, 900);
    assert_eq!(record.agent_speed, fixed(1_000_000));
    assert_eq!(record.bool_enable_agent_bounce, 1);
    assert_eq!(record.bool_enable_agent_deposit, 1);
    assert_eq!(record.bool_enable_agent_rotate, 1);
    assert_eq!(record.bool_enable_agent_rotate_left, 1);
    assert_eq!(record.bool_enable_agent_rotate_randomly, 1);
    assert_eq!(record.bool_enable_agent_rotate_right, 1);
    assert_eq!(record.bool_enable_color, 1);
    assert_eq!(record.bool_enable_decay, 1);
    assert_eq!(record.bool_enable_diffuse, 1);
    assert_eq!(record.bool_enable_render_trail_map, 1);
    assert_eq!(record.bool_enable_high_density_dispersion, 0);
    assert_eq!(record.number_of_active_agents, 10_000_000);
    assert_eq!(record.vertex_stretch, fixed(1_000_000));
    assert_eq!(record.decay_strength, fixed(320_000));
    assert_eq!(record.sensor_angle_degrees, fixed(24_200_000));
    assert_eq!(record.max_turn_angle_degrees, fixed(29_150_000));
    assert_eq!(record.max_rand_turn_angle_degrees, fixed(1_380_000));
    assert_eq!(record.high_density_threshold, fixed(560_000));
    assert_eq!(record.high_density_speed_boost, fixed(850_000));
    assert_eq!(record.deposit_strength, fixed(30_000));
    assert_eq!(record.sensor_distance, fixed(33_800_000));
}

#[test]
fn parameters_defaults_cap_the_active_agents() {
    let params = Parameters::new(ShaderParameters::new(1400, 1400));
    assert_eq!(params.target_ticks_per_second, 60);
    assert_eq!(params.number_of_agents, 500_000);
    assert_eq!(params.initial_conditions, InitialConditions::default());
    assert_eq!(params.shader_parameters.number_of_active_agents, 500_000);
    let mut expected = ShaderParameters::new(1400, 1400);
    expected.number_of_active_agents = 500_000;
    assert_eq!(params.shader_parameters, expected);
    assert!(params.is_valid());
}

#[test]
fn with_population_caps_only_above_the_population() {
    let record = ShaderParameters::new(640, 480);
    let large = Parameters::with_population(20_000_000, record);
    assert_eq!(large.number_of_agents, 20_000_000);
    assert_eq!(large.shader_parameters.number_of_active_agents, 10_000_000);
    assert!(large.is_valid());

    let exact = Parameters::with_population(10_000_000, record);
    assert_eq!(exact.shader_parameters.number_of_active_agents, 10_000_000);

    let small = Parameters::with_population(3, record);
    assert_eq!(small.shader_parameters.number_of_active_agents, 3);
    assert_eq!(small.target_ticks_per_second, 60);
    assert!(small.is_valid());

    let none = Parameters::with_population(0, record);
    assert_eq!(none.shader_parameters.number_of_active_agents, 0);
    assert!(none.is_valid());
}

#[test]
fn with_population_keeps_an_overridden_record() {
    let mut record = ShaderParameters::new(640, 480);
    record.number_of_active_agents = 1000;
    record.decay_strength = fixed(5);
    record.bool_enable_color = 0;
    let params = Parameters::with_population(2000, record);
    assert_eq!(params.shader_parameters, record);
}

#[test]
fn validity_needs_a_tick_rate_and_room_for_the_active_agents() {
    let mut params = Parameters::new(ShaderParameters::new(100, 100));
    assert!(params.is_valid());
    params.target_ticks_per_second = 0;
    assert!(!params.is_valid());
    params.target_ticks_per_second = 1;
    assert!(params.is_valid());
    params.shader_parameters.number_of_active_agents = 500_001;
    assert!(!params.is_valid());
    params.number_of_agents = 500_001;
    assert!(params.is_valid());
}

#[test]
fn canvas_middle_rounds_down() {
    let params = Parameters::new(ShaderParameters::new(1400, 901));
    assert_eq!(params.canvas_middle(), (700, 450));
    let tiny = Parameters::new(ShaderParameters::new(1, 0));
    assert_eq!(tiny.canvas_middle(), (0, 0));
    let huge = Parameters::new(ShaderParameters::new(u32::MAX, u32::MAX - 1));
    assert_eq!(huge.canvas_middle(), (2_147_483_647, 2_147_483_647));
}

#[test]
fn with_tunables_replaces_the_eight_settings_only() {
    let before = ShaderParameters::new(800, 600);
    let tunables = Tunables {
        decay_strength: fixed(1),
        sensor_angle_degrees: fixed(2),
        max_turn_angle_degrees: fixed(3),
        max_rand_turn_angle_degrees: fixed(4),
        high_density_speed_boost: fixed(5),
        high_density_threshold: fixed(6),
        deposit_strength: fixed(7),
        sensor_distance: fixed(8),
    };
    let after = before.with_tunables(tunables);
    assert_eq!(after.decay_strength, fixed(1));
    assert_eq!(after.sensor_angle_degrees, fixed(2));
    assert_eq!(after.max_turn_angle_degrees, fixed(3));
    assert_eq!(after.max_rand_turn_angle_degrees, fixed(4));
    assert_eq!(after.high_density_speed_boost, fixed(5));
    assert_eq!(after.high_density_threshold, fixed(6));
    assert_eq!(after.deposit_strength, fixed(7));
    assert_eq!(after.sensor_distance, fixed(8));
    let mut expected = before;
    expected.decay_strength = fixed(1);
    expected.sensor_angle_degrees = fixed(2);
    expected.max_turn_angle_degrees = fixed(3);
    expected.max_rand_turn_angle_degrees = fixed(4);
    expected.high_density_speed_boost = fixed(5);
    expected.high_density_threshold = fixed(6);
    expected.deposit_strength = fixed(7);
    expected.sensor_distance = fixed(8);
    assert_eq!(after, expected);
}

#[test]
fn sampled_tunables_lie_in_their_ranges() {
    for _ in 0..500 {
        let drawn = Tunables::sample();
        let record = ShaderParameters::new(1, 1).with_tunables(drawn);
        assert!(in_range(&record), "{:?}", drawn);
    }
}

#[test]
fn randomize_draws_from_the_ranges() {
    let mut record = ShaderParameters::new(1400, 1400);
    for _ in 0..500 {
        record.randomize();
        assert!(in_range(&record), "{:?}", record);
    }
}

#[test]
fn randomize_leaves_canvas_and_counts_alone() {
    let mut record = ShaderParameters::new(1234, 567);
    record.number_of_active_agents = 4321;
    record.agent_speed = fixed(2_500_000);
    record.vertex_stretch = fixed(750_000);
    record.bool_enable_diffuse = 0;
    let before = record;
    for _ in 0..50 {
        record.randomize();
        let mut restored = record;
        restored.decay_strength = before.decay_strength;
        restored.sensor_angle_degrees = before.sensor_angle_degrees;
        restored.max_turn_angle_degrees = before.max_turn_angle_degrees;
        restored.max_rand_turn_angle_degrees = before.max_rand_turn_angle_degrees;
        restored.high_density_speed_boost = before.high_density_speed_boost;
        restored.high_density_threshold = before.high_density_threshold;
        restored.deposit_strength = before.deposit_strength;
        restored.sensor_distance = before.sensor_distance;
        assert_eq!(restored, before);
    }
}

#[test]
fn randomize_keeps_a_configuration_valid() {
    let mut params = Parameters::new(ShaderParameters::new(1400, 1400));
    params.shader_parameters.randomize();
    assert!(params.is_valid());
    assert_eq!(params.shader_parameters.number_of_active_agents, 500_000);
    assert_eq!(params.number_of_agents, 500_000);
}

#[test]
fn randomize_does_not_repeat_one_value() {
    let mut record = ShaderParameters::new(1400, 1400);
    let mut angles = Vec::new();
    let mut distances = Vec::new();
    for _ in 0..64 {
        record.randomize();
        angles.push(record.sensor_angle_degrees.millionths);
        distances.push(record.sensor_distance.millionths);
    }
    assert!(angles.iter().any(|angle| *angle != angles[0]));
    assert!(angles.iter().any(|angle| *angle != 1_000_000));
    assert!(distances.iter().any(|distance| *distance != 5_000_000));
    assert!(distances.iter().any(|distance| *distance != 13_999_999));
}

#[test]
fn uniform_record_has_24_slots_of_four_bytes() {
    let fields = ShaderParameters::new(1400, 1400).uniform_fields();
    assert_eq!(fields.len(), 24);
    assert_eq!(fields.len() as u64 * 4, SHADER_PARAMETERS_SIZE);
    assert_eq!(SHADER_PARAMETERS_SIZE, 96);
}

#[test]
fn uniform_record_keeps_the_order_of_the_fields() {
    let mut record = ShaderParameters::new(1400, 900);
    record.agent_speed = fixed(100);
    record.bool_enable_agent_bounce = 101;
    record.bool_enable_agent_deposit = 102;
    record.bool_enable_agent_rotate = 103;
    record.bool_enable_agent_rotate_left = 104;
    record.bool_enable_agent_rotate_randomly = 105;
    record.bool_enable_agent_rotate_right = 106;
    record.bool_enable_color = 107;
    record.bool_enable_decay = 108;
    record.bool_enable_diffuse = 109;
    record.bool_enable_render_trail_map = 110;
    record.bool_enable_high_density_dispersion = 111;
    record.canvas_width = 112;
    record.canvas_height = 113;
    record.number_of_active_agents = 114;
    record.vertex_stretch = fixed(115);
    record.decay_strength = fixed(116);
    record.sensor_angle_degrees = fixed(117);
    record.max_turn_angle_degrees = fixed(118);
    record.max_rand_turn_angle_degrees = fixed(119);
    record.high_density_threshold = fixed(120);
    record.high_density_speed_boost = fixed(121);
    record.deposit_strength = fixed(122);
    record.sensor_distance = fixed(123);
    let fields = record.uniform_fields();
    let expected = vec![
        UniformField::Real(fixed(100)),
        UniformField::Word(101),
        UniformField::Word(102),
        UniformField::Word(103),
        UniformField::Word(104),
        UniformField::Word(105),
        UniformField::Word(106),
        UniformField::Word(107),
        UniformField::Word(108),
        UniformField::Word(109),
        UniformField::Word(110),
        UniformField::Word(111),
        UniformField::Word(112),
        UniformField::Word(113),
        UniformField::Word(114),
        UniformField::Real(fixed(115)),
        UniformField::Real(fixed(116)),
        UniformField::Real(fixed(117)),
        UniformField::Real(fixed(118)),
        UniformField::Real(fixed(119)),
        UniformField::Real(fixed(120)),
        UniformField::Real(fixed(121)),
        UniformField::Real(fixed(122)),
        UniformField::Real(fixed(123)),
    ];
    assert_eq!(fields, expected);
}
