//! Following the swapchain when it is replaced.
use vstd::prelude::*;

use crate::command::{Command, Handle};
use crate::config::{swapchain_pipeline, swapchain_pipeline_spec};
use crate::integration::{Integration, IntegrationModel};
use crate::integration::setup::{pipeline_script, write_pipeline};
use crate::script::Script;
use crate::task::{Purpose, Task, TaskError, TaskModel};

verus! {

/// The number of the swapchain task's creation that is the new pipeline.
pub const NEW_PIPELINE: usize = 2;

/// The commands that replace the pipeline.
pub open spec fn swapchain_script(pipeline: u64, pipeline_layout: u64) -> Seq<Command> {
    seq![
        Command::DestroyPipeline { pipeline: Handle::Known(pipeline) },
        Command::GetSwapchainImages,
    ] + pipeline_script(swapchain_pipeline_spec(), Handle::Known(pipeline_layout), 0)
}

impl Integration {
    /// Starts to follow a new swapchain with images of this size.
    pub fn update_swapchain(&mut self, physical_width: u32, physical_height: u32) -> (task: Task)
        ensures
            task@.wf(),
            task@ == TaskModel::fresh(
                swapchain_script(old(self)@.pipeline, old(self)@.pipeline_layout),
                Purpose::Swapchain,
                Seq::empty(),
            ),
            task@.script[0] == (Command::DestroyPipeline {
                pipeline: Handle::Known(old(self)@.pipeline),
            }),
            task@.script[4] matches Command::CreateGraphicsPipeline { layout, .. } && layout
                == Handle::Known(old(self)@.pipeline_layout),
            final(self)@ == (IntegrationModel { physical_width, physical_height, ..old(self)@ }),
            final(self)@.physical_width == physical_width,
            final(self)@.physical_height == physical_height,
    {
        self.physical_width = physical_width;
        self.physical_height = physical_height;
        let mut script = Script::new();
        script.push(Command::DestroyPipeline { pipeline: Handle::Known(self.pipeline) });
        script.push(Command::GetSwapchainImages);
        write_pipeline(&mut script, swapchain_pipeline(), Handle::Known(self.pipeline_layout));
        assert(script@ =~= swapchain_script(self@.pipeline, self@.pipeline_layout));
        let data: Vec<u8> = Vec::new();
        Task::new(script, Purpose::Swapchain, data)
    }

    /// Takes over the pipeline of the new swapchain.
    pub fn finish_update_swapchain(&mut self, task: &Task) -> (result: Result<(), TaskError>)
        requires
            task@.wf(),
        ensures
            result == (if !(task@.purpose is Swapchain) {
                Err::<(), TaskError>(TaskError::WrongPurpose)
            } else if !task@.finished() {
                Err(TaskError::Unfinished)
            } else {
                Ok(())
            }),
            final(self)@ == (if result is Ok {
                IntegrationModel { pipeline: task@.created[NEW_PIPELINE as int], ..old(self)@ }
            } else {
                old(self)@
            }),
    {
        match task.purpose() {
            Purpose::Swapchain => {},
            _ => {
                return Err(TaskError::WrongPurpose);
            },
        }
        if !task.is_finished() {
            return Err(TaskError::Unfinished);
        }
        proof {
            assert(task@.script.take(task@.position as int) =~= task@.script);
        }
        self.pipeline = task.created()[NEW_PIPELINE];
        Ok(())
    }
}

} // verus!
