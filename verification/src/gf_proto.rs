//! Node protocol types of the GatewayForge node agent.

use vstd::prelude::*;

verus! {

/// Which agent issued a command.
#[derive(Debug, Clone, Copy, PartialEq, Eq, Structural)]
pub enum AgentIdentity {
    Commander,
    Guardian,
    Forge,
    Ledger,
    Triage,
    Briefer,
    System,
}

/// Periodic liveness message from a node.
#[derive(Debug, Clone, Copy)]
pub struct HeartbeatPayload {
    pub health_score: u8,
    pub openclaw_status: ServiceStatus,
    pub docker_running: bool,
    pub tailscale_connected: bool,
    pub uptime_seconds: u64,
}

#[derive(Debug, Clone, Copy, PartialEq, Eq, Structural)]
pub enum ServiceStatus {
    Healthy,
    Degraded,
    Down,
    Unknown,
}

/// Docker daemon status with container counts.
#[derive(Debug, Clone, Copy)]
pub struct DockerStatus {
    pub running: bool,
    pub container_count: u32,
    pub unhealthy_count: u32,
}

/// Status of one container.
#[derive(Debug, Clone)]
pub struct ContainerStatus {
    pub name: String,
    pub image: String,
    pub state: ContainerState,
    pub uptime_seconds: u64,
    pub restart_count: u32,
}

#[derive(Debug, Clone, Copy, PartialEq, Eq, Structural)]
pub enum ContainerState {
    Running,
    Exited,
    Restarting,
    Paused,
    Dead,
    Created,
}

/// Memory figures, in megabytes.
#[derive(Debug, Clone, Copy)]
pub struct MemoryMetrics {
    pub total_mb: u64,
    pub used_mb: u64,
    pub free_mb: u64,
    pub cached_mb: u64,
    pub swap_total_mb: u64,
    pub swap_used_mb: u64,
}

#[derive(Debug, Clone, Copy, PartialEq, Eq, Structural)]
pub enum NodeEventType {
    OpenClawDown,
    OpenClawRecovered,
    DockerRestarted,
    DockerDown,
    DiskUsageHigh,
    CpuUsageHigh,
    MemUsageHigh,
    TailscaleDisconnected,
    TailscaleReconnected,
    ConfigUpdated,
    ConfigRollback,
    BootstrapComplete,
    HeartbeatMissed,
}

/// Severity of a node event, ordered `Info < Warning < Critical`.
#[derive(Debug, Clone, Copy, PartialEq, Eq, Structural, PartialOrd, Ord)]
pub enum EventSeverity {
    Info,
    Warning,
    Critical,
}

#[derive(Debug, Clone, Copy, PartialEq, Eq, Structural)]
pub enum VpsProvider {
    Hetzner,
    Vultr,
    Contabo,
    Hostinger,
    DigitalOcean,
}

#[derive(Debug, Clone, Copy, PartialEq, Eq, Structural)]
pub enum InstanceTier {
    Nano,
    Standard,
    Pro,
    Enterprise,
}

#[derive(Debug, Clone, Copy, PartialEq, Eq, Structural)]
pub enum InstanceRole {
    Primary,
    Standby,
}

} // verus!
