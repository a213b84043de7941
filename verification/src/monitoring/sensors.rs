use vstd::prelude::*;
use crate::text::same_text;

verus! {

#[derive(Debug, Clone, Copy, PartialEq, Eq, Structural)]
pub enum SensorUnit {
    Celsius,
    Percent,
    Rpm,
    Megahertz,
    Megabytes,
    Watts,
    Fps,
}

/// The symbol shown after a value in `unit`.
pub open spec fn unit_symbol(unit: SensorUnit) -> Seq<char> {
    match unit {
        SensorUnit::Celsius => "\u{00B0}"@,
        SensorUnit::Percent => "%"@,
        SensorUnit::Rpm => "RPM"@,
        SensorUnit::Megahertz => "MHz"@,
        SensorUnit::Megabytes => "MB"@,
        SensorUnit::Watts => "W"@,
        SensorUnit::Fps => "FPS"@,
    }
}

impl SensorUnit {
    pub fn symbol(&self) -> (s: &'static str)
        ensures
            s@ == unit_symbol(*self),
    {
        match self {
            Self::Celsius => "\u{00B0}",
            Self::Percent => "%",
            Self::Rpm => "RPM",
            Self::Megahertz => "MHz",
            Self::Megabytes => "MB",
            Self::Watts => "W",
            Self::Fps => "FPS",
        }
    }
}

/// The monitors that report sensor readings.
#[derive(Debug, Clone, Copy, PartialEq, Eq, Structural)]
pub enum SensorSource {
    Cpu,
    Gpu,
    Memory,
}

/// The fields of the shared sensor state that readings are stored in.
#[derive(Debug, Clone, Copy, PartialEq, Eq, Structural)]
pub enum SensorField {
    CpuTemperature,
    CpuUsage,
    CpuClock,
    GpuTemperature,
    GpuUsage,
    GpuVram,
    RamUsage,
}

/// The field a reading named `name` from `source` is stored in; readings with other names are
/// not stored.
pub open spec fn field_for(source: SensorSource, name: Seq<char>) -> Option<SensorField> {
    match source {
        SensorSource::Cpu => if name == "CPU Temperature"@ {
            Some(SensorField::CpuTemperature)
        } else if name == "CPU Usage"@ {
            Some(SensorField::CpuUsage)
        } else if name == "CPU Clock"@ {
            Some(SensorField::CpuClock)
        } else {
            None
        },
        SensorSource::Gpu => if name == "GPU Temperature"@ {
            Some(SensorField::GpuTemperature)
        } else if name == "GPU Usage"@ {
            Some(SensorField::GpuUsage)
        } else if name == "GPU VRAM"@ {
            Some(SensorField::GpuVram)
        } else {
            None
        },
        SensorSource::Memory => if name == "RAM Usage"@ {
            Some(SensorField::RamUsage)
        } else {
            None
        },
    }
}

pub fn sensor_field(source: SensorSource, name: &str) -> (f: Option<SensorField>)
    ensures
        f == field_for(source, name@),
{
    match source {
        SensorSource::Cpu => if same_text(name, "CPU Temperature") {
            Some(SensorField::CpuTemperature)
        } else if same_text(name, "CPU Usage") {
            Some(SensorField::CpuUsage)
        } else if same_text(name, "CPU Clock") {
            Some(SensorField::CpuClock)
        } else {
            None
        },
        SensorSource::Gpu => if same_text(name, "GPU Temperature") {
            Some(SensorField::GpuTemperature)
        } else if same_text(name, "GPU Usage") {
            Some(SensorField::GpuUsage)
        } else if same_text(name, "GPU VRAM") {
            Some(SensorField::GpuVram)
        } else {
            None
        },
        SensorSource::Memory => if same_text(name, "RAM Usage") {
            Some(SensorField::RamUsage)
        } else {
            None
        },
    }
}

} // verus!
