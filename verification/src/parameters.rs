//! Configuration of a run: the record that the kernels read, the conditions
//! under which agents are seeded, and the rates and counts of the host.
//!
//! Every real-valued setting is held as a whole number of millionths, so
//! that defaults and ranges are exact and can be reasoned about.

use crate::random::uniform;
use vstd::prelude::*;

verus! {

/// A non-negative real setting, held as a whole number of millionths.
#[derive(Debug, Clone, Copy, PartialEq, Eq, Structural)]
pub struct Fixed {
    pub millionths: u64,
}

impl Fixed {
    /// Whether the value lies in the half-open range from `low` to `high`
    /// millionths.
    pub open spec fn within(self, low: u64, high: u64) -> bool {
        low <= self.millionths < high
    }
}

/// Ticks of the simulation to aim for in a second.
pub const DEFAULT_TARGET_TICKS_PER_SECOND: u32 = 60;

/// Agents that the data layer is allocated for.
pub const DEFAULT_NUMBER_OF_AGENTS: u32 = 500_000;

/// Agents that the kernel moves, before the cap at the population.
pub const DEFAULT_NUMBER_OF_ACTIVE_AGENTS: u32 = 10_000_000;

/// Radius of the disk in which agents start, unless set otherwise: 500
/// canvas units.
pub const DEFAULT_INITIAL_CIRCLE_RADIUS: u64 = 500_000_000;

/// Agent speed, unless set otherwise: 1.
pub const DEFAULT_AGENT_SPEED: u64 = 1_000_000;

/// Vertex stretch, unless set otherwise: 1.
pub const DEFAULT_VERTEX_STRETCH: u64 = 1_000_000;

/// Decay strength, unless set otherwise: 0.32.
pub const DEFAULT_DECAY_STRENGTH: u64 = 320_000;

/// Sensor angle, unless set otherwise: 24.2 degrees.
pub const DEFAULT_SENSOR_ANGLE_DEGREES: u64 = 24_200_000;

/// Largest steered turn, unless set otherwise: 29.15 degrees.
pub const DEFAULT_MAX_TURN_ANGLE_DEGREES: u64 = 29_150_000;

/// Largest random turn, unless set otherwise: 1.38 degrees.
pub const DEFAULT_MAX_RAND_TURN_ANGLE_DEGREES: u64 = 1_380_000;

/// Density threshold, unless set otherwise: 0.56.
pub const DEFAULT_HIGH_DENSITY_THRESHOLD: u64 = 560_000;

/// Speed boost in a crowd, unless set otherwise: 0.85.
pub const DEFAULT_HIGH_DENSITY_SPEED_BOOST: u64 = 850_000;

/// Deposit strength, unless set otherwise: 0.03.
pub const DEFAULT_DEPOSIT_STRENGTH: u64 = 30_000;

/// Sensor distance, unless set otherwise: 33.8 canvas units.
pub const DEFAULT_SENSOR_DISTANCE: u64 = 33_800_000;

/// Least decay strength that randomizing draws: 0.001.
pub const DECAY_STRENGTH_LOW: u64 = 1_000;

/// Randomized decay strength stays below this: 0.5.
pub const DECAY_STRENGTH_HIGH: u64 = 500_000;

/// Least sensor angle that randomizing draws: 1 degree.
pub const SENSOR_ANGLE_DEGREES_LOW: u64 = 1_000_000;

/// Randomized sensor angle stays below this: 120 degrees.
pub const SENSOR_ANGLE_DEGREES_HIGH: u64 = 120_000_000;

/// Least steered turn that randomizing draws: 1 degree.
pub const MAX_TURN_ANGLE_DEGREES_LOW: u64 = 1_000_000;

/// Randomized steered turn stays below this: 60 degrees.
pub const MAX_TURN_ANGLE_DEGREES_HIGH: u64 = 60_000_000;

/// Least random turn that randomizing draws: 0 degrees.
pub const MAX_RAND_TURN_ANGLE_DEGREES_LOW: u64 = 0;

/// Randomized random turn stays below this: 10 degrees.
pub const MAX_RAND_TURN_ANGLE_DEGREES_HIGH: u64 = 10_000_000;

/// Least speed boost that randomizing draws: 0.
pub const HIGH_DENSITY_SPEED_BOOST_LOW: u64 = 0;

/// Randomized speed boost stays below this: 20.
pub const HIGH_DENSITY_SPEED_BOOST_HIGH: u64 = 20_000_000;

/// Least density threshold that randomizing draws: 0.5.
pub const HIGH_DENSITY_THRESHOLD_LOW: u64 = 500_000;

/// Randomized density threshold stays below this: 1.
pub const HIGH_DENSITY_THRESHOLD_HIGH: u64 = 1_000_000;

/// Least deposit strength that randomizing draws: 0.001.
pub const DEPOSIT_STRENGTH_LOW: u64 = 1_000;

/// Randomized deposit strength stays below this: 0.03.
pub const DEPOSIT_STRENGTH_HIGH: u64 = 30_000;

/// Least sensor distance that randomizing draws: 5 canvas units.
pub const SENSOR_DISTANCE_LOW: u64 = 5_000_000;

/// Randomized sensor distance stays below this: 14 canvas units.
pub const SENSOR_DISTANCE_HIGH: u64 = 14_000_000;

/// Where a freshly seeded agent is headed.
#[derive(Debug, Clone, Copy, PartialEq, Eq, Structural)]
pub enum InitialHeading {
    /// Towards the middle of the canvas.
    Inward,
    /// Away from the middle of the canvas.
    Outward,
    /// In a direction drawn for each agent.
    Random,
}

impl Default for InitialHeading {
    fn default() -> (heading: Self)
        ensures
            heading == InitialHeading::Random,
    {
        InitialHeading::Random
    }
}

/// How the population is laid out before the first tick. Read when agents
/// are seeded and never sent to the kernels.
#[derive(Debug, Clone, Copy, PartialEq, Eq, Structural)]
pub struct InitialConditions {
    /// Radius of the disk around the middle of the canvas in which agents
    /// start.
    pub initial_circle_radius: Fixed,
    /// Direction in which agents start.
    pub initial_heading: InitialHeading,
}

impl Default for InitialConditions {
    fn default() -> (conditions: Self)
        ensures
            conditions == (InitialConditions {
                initial_circle_radius: Fixed { millionths: DEFAULT_INITIAL_CIRCLE_RADIUS },
                initial_heading: InitialHeading::Random,
            }),
    {
        InitialConditions {
            initial_circle_radius: Fixed { millionths: DEFAULT_INITIAL_CIRCLE_RADIUS },
            initial_heading: InitialHeading::Random,
        }
    }
}

/// The settings that `ShaderParameters::randomize` replaces.
#[derive(Debug, Clone, Copy, PartialEq, Eq, Structural)]
pub struct Tunables {
    pub decay_strength: Fixed,
    pub sensor_angle_degrees: Fixed,
    pub max_turn_angle_degrees: Fixed,
    pub max_rand_turn_angle_degrees: Fixed,
    pub high_density_speed_boost: Fixed,
    pub high_density_threshold: Fixed,
    pub deposit_strength: Fixed,
    pub sensor_distance: Fixed,
}

impl Tunables {
    /// Whether each setting lies in the range that randomizing draws it from.
    pub open spec fn in_range(self) -> bool {
        &&& self.decay_strength.within(DECAY_STRENGTH_LOW, DECAY_STRENGTH_HIGH)
        &&& self.sensor_angle_degrees.within(SENSOR_ANGLE_DEGREES_LOW, SENSOR_ANGLE_DEGREES_HIGH)
        &&& self.max_turn_angle_degrees.within(
            MAX_TURN_ANGLE_DEGREES_LOW,
            MAX_TURN_ANGLE_DEGREES_HIGH,
        )
        &&& self.max_rand_turn_angle_degrees.within(
            MAX_RAND_TURN_ANGLE_DEGREES_LOW,
            MAX_RAND_TURN_ANGLE_DEGREES_HIGH,
        )
        &&& self.high_density_speed_boost.within(
            HIGH_DENSITY_SPEED_BOOST_LOW,
            HIGH_DENSITY_SPEED_BOOST_HIGH,
        )
        &&& self.high_density_threshold.within(
            HIGH_DENSITY_THRESHOLD_LOW,
            HIGH_DENSITY_THRESHOLD_HIGH,
        )
        &&& self.deposit_strength.within(DEPOSIT_STRENGTH_LOW, DEPOSIT_STRENGTH_HIGH)
        &&& self.sensor_distance.within(SENSOR_DISTANCE_LOW, SENSOR_DISTANCE_HIGH)
    }

    /// Draws each setting from its range, independently of the others.
    pub fn sample() -> (drawn: Tunables)
        ensures
            drawn.in_range(),
    {
        let decay_strength: u64 = uniform(DECAY_STRENGTH_LOW, DECAY_STRENGTH_HIGH);
        let sensor_angle_degrees: u64 = uniform(
            SENSOR_ANGLE_DEGREES_LOW,
            SENSOR_ANGLE_DEGREES_HIGH,
        );
        let max_turn_angle_degrees: u64 = uniform(
            MAX_TURN_ANGLE_DEGREES_LOW,
            MAX_TURN_ANGLE_DEGREES_HIGH,
        );
        let max_rand_turn_angle_degrees: u64 = uniform(
            MAX_RAND_TURN_ANGLE_DEGREES_LOW,
            MAX_RAND_TURN_ANGLE_DEGREES_HIGH,
        );
        let high_density_speed_boost: u64 = uniform(
            HIGH_DENSITY_SPEED_BOOST_LOW,
            HIGH_DENSITY_SPEED_BOOST_HIGH,
        );
        let high_density_threshold: u64 = uniform(
            HIGH_DENSITY_THRESHOLD_LOW,
            HIGH_DENSITY_THRESHOLD_HIGH,
        );
        let deposit_strength: u64 = uniform(DEPOSIT_STRENGTH_LOW, DEPOSIT_STRENGTH_HIGH);
        let sensor_distance: u64 = uniform(SENSOR_DISTANCE_LOW, SENSOR_DISTANCE_HIGH);
        Tunables {
            decay_strength: Fixed { millionths: decay_strength },
            sensor_angle_degrees: Fixed { millionths: sensor_angle_degrees },
            max_turn_angle_degrees: Fixed { millionths: max_turn_angle_degrees },
            max_rand_turn_angle_degrees: Fixed { millionths: max_rand_turn_angle_degrees },
            high_density_speed_boost: Fixed { millionths: high_density_speed_boost },
            high_density_threshold: Fixed { millionths: high_density_threshold },
            deposit_strength: Fixed { millionths: deposit_strength },
            sensor_distance: Fixed { millionths: sensor_distance },
        }
    }
}

/// One 4-byte slot of the uniform record.
#[derive(Debug, Clone, Copy, PartialEq, Eq, Structural)]
pub enum UniformField {
    /// Sent as an unsigned 32-bit integer.
    Word(u32),
    /// Sent as the 32-bit real nearest to the value.
    Real(Fixed),
}

/// Length of the uniform record in bytes.
pub const SHADER_PARAMETERS_SIZE: u64 = 96;

/// What the kernels read of the configuration. The order of the fields is
/// the order of the slots of the uniform record; a switch is 1 or 0.
#[derive(Debug, Clone, Copy, PartialEq, Eq, Structural)]
pub struct ShaderParameters {
    pub agent_speed: Fixed,
    pub bool_enable_agent_bounce: u32,
    pub bool_enable_agent_deposit: u32,
    pub bool_enable_agent_rotate: u32,
    pub bool_enable_agent_rotate_left: u32,
    pub bool_enable_agent_rotate_randomly: u32,
    pub bool_enable_agent_rotate_right: u32,
    pub bool_enable_color: u32,
    pub bool_enable_decay: u32,
    pub bool_enable_diffuse: u32,
    pub bool_enable_render_trail_map: u32,
    pub bool_enable_high_density_dispersion: u32,
    pub canvas_width: u32,
    pub canvas_height: u32,
    pub number_of_active_agents: u32,
    pub vertex_stretch: Fixed,
    pub decay_strength: Fixed,
    /// Angle between the heading and each of the two side sensors.
    pub sensor_angle_degrees: Fixed,
    /// Largest turn that a side sensor causes.
    pub max_turn_angle_degrees: Fixed,
    /// Largest turn in a direction chosen by chance.
    pub max_rand_turn_angle_degrees: Fixed,
    /// Deposit above which agents are taken to crowd.
    pub high_density_threshold: Fixed,
    /// Gain in speed of an agent that is in a crowd.
    pub high_density_speed_boost: Fixed,
    pub deposit_strength: Fixed,
    pub sensor_distance: Fixed,
}

impl ShaderParameters {
    /// The record with every setting at its default, for a canvas of the
    /// given size.
    pub open spec fn defaults(canvas_width: u32, canvas_height: u32) -> ShaderParameters {
        ShaderParameters {
            agent_speed: Fixed { millionths: DEFAULT_AGENT_SPEED },
            bool_enable_agent_bounce: 1,
            bool_enable_agent_deposit: 1,
            bool_enable_agent_rotate: 1,
            bool_enable_agent_rotate_left: 1,
            bool_enable_agent_rotate_randomly: 1,
            bool_enable_agent_rotate_right: 1,
            bool_enable_color: 1,
            bool_enable_decay: 1,
            bool_enable_diffuse: 1,
            bool_enable_render_trail_map: 1,
            bool_enable_high_density_dispersion: 0,
            canvas_width,
            canvas_height,
            number_of_active_agents: DEFAULT_NUMBER_OF_ACTIVE_AGENTS,
            vertex_stretch: Fixed { millionths: DEFAULT_VERTEX_STRETCH },
            decay_strength: Fixed { millionths: DEFAULT_DECAY_STRENGTH },
            sensor_angle_degrees: Fixed { millionths: DEFAULT_SENSOR_ANGLE_DEGREES },
            max_turn_angle_degrees: Fixed { millionths: DEFAULT_MAX_TURN_ANGLE_DEGREES },
            max_rand_turn_angle_degrees: Fixed {
                millionths: DEFAULT_MAX_RAND_TURN_ANGLE_DEGREES,
            },
            high_density_threshold: Fixed { millionths: DEFAULT_HIGH_DENSITY_THRESHOLD },
            high_density_speed_boost: Fixed { millionths: DEFAULT_HIGH_DENSITY_SPEED_BOOST },
            deposit_strength: Fixed { millionths: DEFAULT_DEPOSIT_STRENGTH },
            sensor_distance: Fixed { millionths: DEFAULT_SENSOR_DISTANCE },
        }
    }

    /// Makes the record for a canvas of the given size, with every other
    /// setting at its default. To override a setting, assign to its field.
    pub fn new(canvas_width: u32, canvas_height: u32) -> (record: ShaderParameters)
        ensures
            record == ShaderParameters::defaults(canvas_width, canvas_height),
    {
        ShaderParameters {
            agent_speed: Fixed { millionths: DEFAULT_AGENT_SPEED },
            bool_enable_agent_bounce: 1,
            bool_enable_agent_deposit: 1,
            bool_enable_agent_rotate: 1,
            bool_enable_agent_rotate_left: 1,
            bool_enable_agent_rotate_randomly: 1,
            bool_enable_agent_rotate_right: 1,
            bool_enable_color: 1,
            bool_enable_decay: 1,
            bool_enable_diffuse: 1,
            bool_enable_render_trail_map: 1,
            bool_enable_high_density_dispersion: 0,
            canvas_width,
            canvas_height,
            number_of_active_agents: DEFAULT_NUMBER_OF_ACTIVE_AGENTS,
            vertex_stretch: Fixed { millionths: DEFAULT_VERTEX_STRETCH },
            decay_strength: Fixed { millionths: DEFAULT_DECAY_STRENGTH },
            sensor_angle_degrees: Fixed { millionths: DEFAULT_SENSOR_ANGLE_DEGREES },
            max_turn_angle_degrees: Fixed { millionths: DEFAULT_MAX_TURN_ANGLE_DEGREES },
            max_rand_turn_angle_degrees: Fixed {
                millionths: DEFAULT_MAX_RAND_TURN_ANGLE_DEGREES,
            },
            high_density_threshold: Fixed { millionths: DEFAULT_HIGH_DENSITY_THRESHOLD },
            high_density_speed_boost: Fixed { millionths: DEFAULT_HIGH_DENSITY_SPEED_BOOST },
            deposit_strength: Fixed { millionths: DEFAULT_DEPOSIT_STRENGTH },
            sensor_distance: Fixed { millionths: DEFAULT_SENSOR_DISTANCE },
        }
    }

    /// The settings of the record that randomizing replaces.
    pub open spec fn tunables(self) -> Tunables {
        Tunables {
            decay_strength: self.decay_strength,
            sensor_angle_degrees: self.sensor_angle_degrees,
            max_turn_angle_degrees: self.max_turn_angle_degrees,
            max_rand_turn_angle_degrees: self.max_rand_turn_angle_degrees,
            high_density_speed_boost: self.high_density_speed_boost,
            high_density_threshold: self.high_density_threshold,
            deposit_strength: self.deposit_strength,
            sensor_distance: self.sensor_distance,
        }
    }

    /// The record with the given settings in place of its own, and every
    /// other field as it is.
    pub open spec fn retuned(self, tunables: Tunables) -> ShaderParameters {
        ShaderParameters {
            decay_strength: tunables.decay_strength,
            sensor_angle_degrees: tunables.sensor_angle_degrees,
            max_turn_angle_degrees: tunables.max_turn_angle_degrees,
            max_rand_turn_angle_degrees: tunables.max_rand_turn_angle_degrees,
            high_density_speed_boost: tunables.high_density_speed_boost,
            high_density_threshold: tunables.high_density_threshold,
            deposit_strength: tunables.deposit_strength,
            sensor_distance: tunables.sensor_distance,
            ..self
        }
    }

    /// Puts the given settings in place of the record's own. The size of the
    /// canvas, the count of active agents, the switches, the speed and the
    /// stretch stay.
    pub fn with_tunables(self, tunables: Tunables) -> (record: ShaderParameters)
        ensures
            record == self.retuned(tunables),
    {
        ShaderParameters {
            decay_strength: tunables.decay_strength,
            sensor_angle_degrees: tunables.sensor_angle_degrees,
            max_turn_angle_degrees: tunables.max_turn_angle_degrees,
            max_rand_turn_angle_degrees: tunables.max_rand_turn_angle_degrees,
            high_density_speed_boost: tunables.high_density_speed_boost,
            high_density_threshold: tunables.high_density_threshold,
            deposit_strength: tunables.deposit_strength,
            sensor_distance: tunables.sensor_distance,
            ..self
        }
    }

    /// Replaces the tunable settings by values drawn from their ranges. The
    /// size of the canvas and the count of active agents, which the buffers
    /// were allocated for, are never touched.
    pub fn randomize(&mut self)
        ensures
            final(self).tunables().in_range(),
            *final(self) == old(self).retuned(final(self).tunables()),
            final(self).canvas_width == old(self).canvas_width,
            final(self).canvas_height == old(self).canvas_height,
            final(self).number_of_active_agents == old(self).number_of_active_agents,
    {
        let drawn = Tunables::sample();
        *self = self.with_tunables(drawn);
    }

    /// The slots of the uniform record, first to last.
    pub open spec fn uniform_layout(self) -> Seq<UniformField> {
        seq![
            UniformField::Real(self.agent_speed),
            UniformField::Word(self.bool_enable_agent_bounce),
            UniformField::Word(self.bool_enable_agent_deposit),
            UniformField::Word(self.bool_enable_agent_rotate),
            UniformField::Word(self.bool_enable_agent_rotate_left),
            UniformField::Word(self.bool_enable_agent_rotate_randomly),
            UniformField::Word(self.bool_enable_agent_rotate_right),
            UniformField::Word(self.bool_enable_color),
            UniformField::Word(self.bool_enable_decay),
            UniformField::Word(self.bool_enable_diffuse),
            UniformField::Word(self.bool_enable_render_trail_map),
            UniformField::Word(self.bool_enable_high_density_dispersion),
            UniformField::Word(self.canvas_width),
            UniformField::Word(self.canvas_height),
            UniformField::Word(self.number_of_active_agents),
            UniformField::Real(self.vertex_stretch),
            UniformField::Real(self.decay_strength),
            UniformField::Real(self.sensor_angle_degrees),
            UniformField::Real(self.max_turn_angle_degrees),
            UniformField::Real(self.max_rand_turn_angle_degrees),
            UniformField::Real(self.high_density_threshold),
            UniformField::Real(self.high_density_speed_boost),
            UniformField::Real(self.deposit_strength),
            UniformField::Real(self.sensor_distance),
        ]
    }

    /// Lists the slots of the uniform record in the order in which the
    /// kernels read them. Each slot takes four bytes, with no padding.
    pub fn uniform_fields(&self) -> (fields: Vec<UniformField>)
        ensures
            fields@ == self.uniform_layout(),
            fields@.len() * 4 == SHADER_PARAMETERS_SIZE,
    {
        let fields = vec![
            UniformField::Real(self.agent_speed),
            UniformField::Word(self.bool_enable_agent_bounce),
            UniformField::Word(self.bool_enable_agent_deposit),
            UniformField::Word(self.bool_enable_agent_rotate),
            UniformField::Word(self.bool_enable_agent_rotate_left),
            UniformField::Word(self.bool_enable_agent_rotate_randomly),
            UniformField::Word(self.bool_enable_agent_rotate_right),
            UniformField::Word(self.bool_enable_color),
            UniformField::Word(self.bool_enable_decay),
            UniformField::Word(self.bool_enable_diffuse),
            UniformField::Word(self.bool_enable_render_trail_map),
            UniformField::Word(self.bool_enable_high_density_dispersion),
            UniformField::Word(self.canvas_width),
            UniformField::Word(self.canvas_height),
            UniformField::Word(self.number_of_active_agents),
            UniformField::Real(self.vertex_stretch),
            UniformField::Real(self.decay_strength),
            UniformField::Real(self.sensor_angle_degrees),
            UniformField::Real(self.max_turn_angle_degrees),
            UniformField::Real(self.max_rand_turn_angle_degrees),
            UniformField::Real(self.high_density_threshold),
            UniformField::Real(self.high_density_speed_boost),
            UniformField::Real(self.deposit_strength),
            UniformField::Real(self.sensor_distance),
        ];
        assert(fields@ =~= self.uniform_layout());
        fields
    }
}

/// Configuration of a run. It is made once, before any buffer is allocated;
/// afterwards only the tunable settings of the kernels' record change.
#[derive(Debug, Clone, Copy, PartialEq, Eq, Structural)]
pub struct Parameters {
    /// Ticks of the simulation to aim for in a second. Frames are capped at
    /// the same rate.
    pub target_ticks_per_second: u32,
    /// Agents that the data layer is allocated for.
    pub number_of_agents: u32,
    pub initial_conditions: InitialConditions,
    pub shader_parameters: ShaderParameters,
}

/// The smaller of the wanted count of active agents and the population.
pub open spec fn capped(active_agents: u32, population: u32) -> u32 {
    if active_agents <= population {
        active_agents
    } else {
        population
    }
}

impl Parameters {
    /// What every run relies on: the clock has a rate, and no agent is
    /// active that the data layer has no room for.
    pub open spec fn wf(self) -> bool {
        &&& self.target_ticks_per_second > 0
        &&& self.shader_parameters.number_of_active_agents <= self.number_of_agents
    }

    /// Tests `wf`. A configuration whose fields were assigned by hand is to
    /// be tested before it is used.
    pub fn is_valid(&self) -> (valid: bool)
        ensures
            valid == self.wf(),
    {
        self.target_ticks_per_second > 0 && self.shader_parameters.number_of_active_agents
            <= self.number_of_agents
    }

    /// The configuration for the given population, with the count of active
    /// agents capped at it and everything else at its default.
    pub open spec fn defaults(
        number_of_agents: u32,
        shader_parameters: ShaderParameters,
    ) -> Parameters {
        Parameters {
            target_ticks_per_second: DEFAULT_TARGET_TICKS_PER_SECOND,
            number_of_agents,
            initial_conditions: InitialConditions {
                initial_circle_radius: Fixed { millionths: DEFAULT_INITIAL_CIRCLE_RADIUS },
                initial_heading: InitialHeading::Random,
            },
            shader_parameters: ShaderParameters {
                number_of_active_agents: capped(
                    shader_parameters.number_of_active_agents,
                    number_of_agents,
                ),
                ..shader_parameters
            },
        }
    }

    /// Makes the configuration around the given record for the kernels, with
    /// the default population. The record's count of active agents is capped
    /// at the population; nothing else of it changes.
    pub fn new(shader_parameters: ShaderParameters) -> (params: Parameters)
        ensures
            params == Parameters::defaults(DEFAULT_NUMBER_OF_AGENTS, shader_parameters),
            params.wf(),
    {
        Parameters::with_population(DEFAULT_NUMBER_OF_AGENTS, shader_parameters)
    }

    /// Makes the configuration for a population of `number_of_agents`. The
    /// record's count of active agents is capped at that population; the
    /// tick rate and the initial conditions take their defaults.
    pub fn with_population(number_of_agents: u32, shader_parameters: ShaderParameters) -> (params:
        Parameters)
        ensures
            params == Parameters::defaults(number_of_agents, shader_parameters),
            params.wf(),
    {
        let wanted: u32 = shader_parameters.number_of_active_agents;
        let active: u32 = if wanted <= number_of_agents {
            wanted
        } else {
            number_of_agents
        };
        Parameters {
            target_ticks_per_second: DEFAULT_TARGET_TICKS_PER_SECOND,
            number_of_agents,
            initial_conditions: InitialConditions::default(),
            shader_parameters: ShaderParameters { number_of_active_agents: active, ..shader_parameters },
        }
    }

    /// The middle of the canvas, around which agents are seeded: half the
    /// width and half the height, each rounded down.
    pub fn canvas_middle(&self) -> (middle: (u32, u32))
        ensures
            middle.0 == self.shader_parameters.canvas_width / 2,
            middle.1 == self.shader_parameters.canvas_height / 2,
    {
        (self.shader_parameters.canvas_width / 2, self.shader_parameters.canvas_height / 2)
    }
}

/// Randomizing the kernels' record leaves a valid configuration valid, and
/// leaves the population and the size of the canvas as they are.
pub proof fn lemma_retuning_keeps_validity(params: Parameters, tunables: Tunables)
    ensures
        ({
            let retuned = Parameters {
                shader_parameters: params.shader_parameters.retuned(tunables),
                ..params
            };
            &&& retuned.wf() == params.wf()
            &&& retuned.number_of_agents == params.number_of_agents
            &&& retuned.shader_parameters.canvas_width == params.shader_parameters.canvas_width
            &&& retuned.shader_parameters.canvas_height == params.shader_parameters.canvas_height
            &&& retuned.shader_parameters.number_of_active_agents
                == params.shader_parameters.number_of_active_agents
        }),
{
}

/// The cap takes agents away only where the population has no room for
/// them: the capped count exceeds neither the wanted count nor the
/// population, and is positive whenever both of these are.
pub proof fn lemma_cap_keeps_agents(active_agents: u32, population: u32)
    ensures
        capped(active_agents, population) <= population,
        capped(active_agents, population) <= active_agents,
        active_agents > 0 && population > 0 ==> capped(active_agents, population) > 0,
{
}

} // verus!
